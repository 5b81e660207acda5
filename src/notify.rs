use vstd::prelude::*;

use crate::tag_map::{entries_view, keys_unique, TagMap};

verus! {

/// What a notification holds, as plain values.
pub struct NotificationView {
    pub app_name: Seq<char>,
    pub replaces_id: u32,
    pub app_icon: Seq<char>,
    pub summary: Seq<char>,
    pub body: Seq<char>,
    pub actions: Seq<Seq<char>>,
    pub hints: Map<Seq<char>, i32>,
    pub expire_timeout: i32,
}

/// The parameters of one call to the desktop notification service's `Notify`.
/// `replaces_id` 0 asks for a new notification, any other value replaces the
/// notification with that handle. Hints carry integer values.
pub struct Notification {
    app_name: String,
    replaces_id: u32,
    app_icon: String,
    summary: String,
    body: String,
    actions: Vec<String>,
    hints: TagMap<i32>,
    expire_timeout: i32,
}

impl View for Notification {
    type V = NotificationView;

    closed spec fn view(&self) -> NotificationView {
        NotificationView {
            app_name: self.app_name@,
            replaces_id: self.replaces_id,
            app_icon: self.app_icon@,
            summary: self.summary@,
            body: self.body@,
            actions: self.actions@.map_values(|a: String| a@),
            hints: self.hints@,
            expire_timeout: self.expire_timeout,
        }
    }
}

impl Notification {
    /// The hints map is well formed.
    pub closed spec fn wf(&self) -> bool {
        self.hints.wf()
    }

    /// An empty notification: no text, no hints, replacing nothing, timeout 0.
    pub fn new() -> (r: Notification)
        ensures
            r.wf(),
            r@ == (NotificationView {
                app_name: Seq::empty(),
                replaces_id: 0,
                app_icon: Seq::empty(),
                summary: Seq::empty(),
                body: Seq::empty(),
                actions: Seq::empty(),
                hints: Map::empty(),
                expire_timeout: 0,
            }),
    {
        let r = Notification {
            app_name: String::new(),
            replaces_id: 0,
            app_icon: String::new(),
            summary: String::new(),
            body: String::new(),
            actions: Vec::new(),
            hints: TagMap::new(),
            expire_timeout: 0,
        };
        assert(r@.actions =~= Seq::<Seq<char>>::empty());
        r
    }

    /// Sets the title line.
    pub fn summary(&mut self, summary: &str) -> (r: &mut Self)
        requires
            old(self).wf(),
        ensures
            (*r).wf(),
            (*r)@ == (NotificationView { summary: summary@, ..old(self)@ }),
            *final(self) == *final(r),
    {
        self.summary = summary.to_owned();
        self
    }

    /// Sets the handle of the notification that this one replaces (0: none).
    pub fn replaces_id(&mut self, id: u32) -> (r: &mut Self)
        requires
            old(self).wf(),
        ensures
            (*r).wf(),
            (*r)@ == (NotificationView { replaces_id: id, ..old(self)@ }),
            *final(self) == *final(r),
    {
        self.replaces_id = id;
        self
    }

    /// Sets the body text.
    pub fn body(&mut self, body: &str) -> (r: &mut Self)
        requires
            old(self).wf(),
        ensures
            (*r).wf(),
            (*r)@ == (NotificationView { body: body@, ..old(self)@ }),
            *final(self) == *final(r),
    {
        self.body = body.to_owned();
        self
    }

    /// Sets how long the notification stays, in milliseconds.
    pub fn timeout(&mut self, timeout: i32) -> (r: &mut Self)
        requires
            old(self).wf(),
        ensures
            (*r).wf(),
            (*r)@ == (NotificationView { expire_timeout: timeout, ..old(self)@ }),
            *final(self) == *final(r),
    {
        self.expire_timeout = timeout;
        self
    }

    /// Sets the hint `key` to `value`, replacing an earlier value of that hint.
    pub fn add_hint(&mut self, key: &str, value: i32) -> (r: &mut Self)
        requires
            old(self).wf(),
        ensures
            (*r).wf(),
            (*r)@ == (NotificationView { hints: old(self)@.hints.insert(key@, value), ..old(self)@ }),
            *final(self) == *final(r),
    {
        self.hints.insert(key, value);
        self
    }

    pub fn app_name_str(&self) -> (r: &str)
        ensures
            r@ == self@.app_name,
    {
        self.app_name.as_str()
    }

    pub fn replaces(&self) -> (r: u32)
        ensures
            r == self@.replaces_id,
    {
        self.replaces_id
    }

    pub fn app_icon_str(&self) -> (r: &str)
        ensures
            r@ == self@.app_icon,
    {
        self.app_icon.as_str()
    }

    pub fn summary_str(&self) -> (r: &str)
        ensures
            r@ == self@.summary,
    {
        self.summary.as_str()
    }

    pub fn body_str(&self) -> (r: &str)
        ensures
            r@ == self@.body,
    {
        self.body.as_str()
    }

    pub fn action_list(&self) -> (r: &Vec<String>)
        ensures
            r@.map_values(|a: String| a@) == self@.actions,
    {
        &self.actions
    }

    /// The hints, each key once.
    pub fn hint_list(&self) -> (r: &Vec<(String, i32)>)
        requires
            self.wf(),
        ensures
            keys_unique(r@),
            entries_view(r@) == self@.hints,
    {
        self.hints.as_vec()
    }

    pub fn expire_timeout_ms(&self) -> (r: i32)
        ensures
            r == self@.expire_timeout,
    {
        self.expire_timeout
    }
}

} // verus!
