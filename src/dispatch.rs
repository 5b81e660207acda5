use vstd::prelude::*;

use crate::notify::{Notification, NotificationView};
use crate::registry::{
    apply_event, handle_for, lemma_unseen_tag_has_no_handle, replay, shown_before, RegistryEvent,
    TagRegistry, NO_HANDLE,
};
use crate::request::{
    bincode_record_of, decode, request_of_fields, DecodeError, NotificationRequest, RequestView,
};

verus! {

/// The hint under which a request's value is passed on.
pub open spec fn value_hint_key() -> Seq<char> {
    seq!['v', 'a', 'l', 'u', 'e']
}

/// The notification shown for request `q`: titled with its tag, with its body
/// (empty where it has none), its value as the `value` hint (no hint where it
/// has none), replacing `replaces` and staying `duration` milliseconds.
pub open spec fn notification_for(q: RequestView, replaces: u32, duration: i32) -> NotificationView {
    NotificationView {
        app_name: Seq::empty(),
        replaces_id: replaces,
        app_icon: Seq::empty(),
        summary: q.tag,
        body: match q.body {
            Some(b) => b,
            None => Seq::empty(),
        },
        actions: Seq::empty(),
        hints: match q.value {
            Some(v) => Map::empty().insert(value_hint_key(), v),
            None => Map::empty(),
        },
        expire_timeout: duration,
    }
}

/// The decisions of the daemon: which notification to show for a request, and
/// how the registry follows what the notification service reports.
pub struct Dispatcher {
    registry: TagRegistry,
    duration: i32,
}

impl View for Dispatcher {
    type V = Map<Seq<char>, u32>;

    closed spec fn view(&self) -> Map<Seq<char>, u32> {
        self.registry@
    }
}

impl Dispatcher {
    /// The registry is well formed.
    pub closed spec fn wf(&self) -> bool {
        self.registry.wf()
    }

    /// How long each notification stays, in milliseconds.
    pub closed spec fn display_ms(&self) -> i32 {
        self.duration
    }

    /// A dispatcher with an empty registry whose notifications stay `duration` ms.
    pub fn new(duration: i32) -> (r: Dispatcher)
        ensures
            r.wf(),
            r@ == Map::<Seq<char>, u32>::empty(),
            r.display_ms() == duration,
    {
        Dispatcher { registry: TagRegistry::new(), duration }
    }

    /// The handle that a request for `tag` would replace now.
    pub fn current_handle(&self, tag: &str) -> (r: u32)
        requires
            self.wf(),
        ensures
            r == handle_for(self@, tag@),
    {
        self.registry.lookup_or_default(tag)
    }

    /// The notification to show for `request`: it replaces the handle recorded
    /// for the request's tag, or asks for a new one.
    pub fn prepare(&self, request: &NotificationRequest) -> (r: Notification)
        requires
            self.wf(),
        ensures
            r.wf(),
            r@ == notification_for(request@, handle_for(self@, request.tag@), self.display_ms()),
    {
        let mut n = Notification::new();
        n.summary(request.tag.as_str());
        n.timeout(self.duration);
        match &request.body {
            Some(b) => {
                n.body(b.as_str());
            },
            None => {},
        }
        match request.value {
            Some(v) => {
                proof {
                    reveal_strlit("value");
                    assert("value"@ =~= value_hint_key());
                }
                n.add_hint("value", v);
            },
            None => {},
        }
        let id = self.registry.lookup_or_default(request.tag.as_str());
        n.replaces_id(id);
        assert(n@.hints =~= notification_for(request@, id, self.duration).hints);
        n
    }

    /// Decodes a datagram and prepares its notification. The registry is left
    /// as it is: a datagram that does not decode changes nothing for the next.
    pub fn receive(&self, datagram: &[u8]) -> (r: Result<Notification, DecodeError>)
        requires
            self.wf(),
        ensures
            match request_of_fields(bincode_record_of(datagram@)) {
                Ok(q) => r matches Ok(n) && n.wf() && n@ == notification_for(
                    q,
                    handle_for(self@, q.tag),
                    self.display_ms(),
                ),
                Err(e) => r matches Err(e2) && e2 == e,
            },
    {
        match decode(datagram) {
            Ok(request) => Ok(self.prepare(&request)),
            Err(e) => Err(e),
        }
    }

    /// The notification service showed a notification for `tag` under `handle`.
    pub fn shown(&mut self, tag: &str, handle: u32)
        requires
            old(self).wf(),
        ensures
            final(self).wf(),
            final(self).display_ms() == old(self).display_ms(),
            final(self)@ == apply_event(old(self)@, RegistryEvent::Shown { tag: tag@, handle }),
    {
        self.registry.upsert(tag, handle);
    }

    /// The notification service closed the notification `handle`.
    pub fn closed(&mut self, handle: u32)
        requires
            old(self).wf(),
        ensures
            final(self).wf(),
            final(self).display_ms() == old(self).display_ms(),
            final(self)@ == apply_event(old(self)@, RegistryEvent::Closed { handle }),
    {
        self.registry.remove_by_handle(handle);
    }
}

/// Of two requests with one tag in a row, the second replaces the notification
/// that showing the first one returned.
pub proof fn lemma_same_tag_replaces_previous(
    reg: Map<Seq<char>, u32>,
    first: RequestView,
    second: RequestView,
    handle: u32,
    duration: i32,
)
    requires
        first.tag == second.tag,
    ensures
        ({
            let after = apply_event(reg, RegistryEvent::Shown { tag: first.tag, handle });
            notification_for(second, handle_for(after, second.tag), duration).replaces_id == handle
        }),
{
}

/// A request whose tag no earlier event showed asks for a new notification.
pub proof fn lemma_new_tag_creates(events: Seq<RegistryEvent>, q: RequestView, duration: i32)
    requires
        !shown_before(events, q.tag),
    ensures
        notification_for(q, handle_for(replay(events), q.tag), duration).replaces_id == NO_HANDLE,
{
    lemma_unseen_tag_has_no_handle(events, q.tag);
}

/// Once the notification that a tag maps to is closed, the next request for
/// that tag asks for a new notification.
pub proof fn lemma_close_frees_tag(reg: Map<Seq<char>, u32>, q: RequestView, handle: u32, duration: i32)
    requires
        reg.contains_key(q.tag),
        reg[q.tag] == handle,
    ensures
        ({
            let after = apply_event(reg, RegistryEvent::Closed { handle });
            notification_for(q, handle_for(after, q.tag), duration).replaces_id == NO_HANDLE
        }),
{
}

/// A close of a handle that the tag has since moved on from leaves the tag's
/// newer handle in place.
pub proof fn lemma_stale_close_keeps_newer(
    reg: Map<Seq<char>, u32>,
    q: RequestView,
    stale: u32,
    newer: u32,
    duration: i32,
)
    requires
        newer != stale,
    ensures
        ({
            let reassigned = apply_event(reg, RegistryEvent::Shown { tag: q.tag, handle: newer });
            let after = apply_event(reassigned, RegistryEvent::Closed { handle: stale });
            after.contains_key(q.tag) && after[q.tag] == newer && notification_for(
                q,
                handle_for(after, q.tag),
                duration,
            ).replaces_id == newer
        }),
{
    let reassigned = apply_event(reg, RegistryEvent::Shown { tag: q.tag, handle: newer });
    assert(reassigned.contains_key(q.tag) && reassigned[q.tag] == newer);
}

/// A close changes no tag whose handle is another one.
pub proof fn lemma_close_keeps_other_handles(reg: Map<Seq<char>, u32>, tag: Seq<char>, handle: u32)
    requires
        handle_for(reg, tag) != handle,
    ensures
        handle_for(apply_event(reg, RegistryEvent::Closed { handle }), tag) == handle_for(reg, tag),
{
}

} // verus!
