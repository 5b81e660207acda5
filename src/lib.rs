//! Notification multiplexing core of a volume/notification daemon: decodes
//! datagram requests, keeps the tag-to-handle registry that decides between
//! creating and replacing a desktop notification, and prunes it on close events.

pub mod dispatch;
pub mod notify;
pub mod registry;
pub mod request;
pub mod tag_map;

pub use dispatch::Dispatcher;
pub use notify::{Notification, NotificationView};
pub use registry::{TagRegistry, NO_HANDLE};
pub use request::{decode, request_from_fields, DecodeError, NotificationRequest, RequestView};
pub use tag_map::TagMap;
