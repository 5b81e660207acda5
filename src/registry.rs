use vstd::prelude::*;

use crate::tag_map::{without_value, TagMap};

verus! {

/// The handle that asks the notification service for a new notification.
pub const NO_HANDLE: u32 = 0;

/// The handle to replace for `tag`: the one recorded for it, or `NO_HANDLE`.
pub open spec fn handle_for(reg: Map<Seq<char>, u32>, tag: Seq<char>) -> u32 {
    if reg.contains_key(tag) {
        reg[tag]
    } else {
        NO_HANDLE
    }
}

/// What changes the registry: a notification shown for a tag, or one closed.
pub enum RegistryEvent {
    Shown { tag: Seq<char>, handle: u32 },
    Closed { handle: u32 },
}

/// The registry after one event. A close removes every tag whose current handle
/// is the closed one, and no other.
pub open spec fn apply_event(reg: Map<Seq<char>, u32>, e: RegistryEvent) -> Map<Seq<char>, u32> {
    match e {
        RegistryEvent::Shown { tag, handle } => reg.insert(tag, handle),
        RegistryEvent::Closed { handle } => without_value(reg, handle),
    }
}

/// The registry after a run of events, from an empty one.
pub open spec fn replay(events: Seq<RegistryEvent>) -> Map<Seq<char>, u32>
    decreases events.len(),
{
    if events.len() == 0 {
        Map::empty()
    } else {
        apply_event(replay(events.drop_last()), events.last())
    }
}

/// Whether some event of `events` showed a notification for `tag`.
pub open spec fn shown_before(events: Seq<RegistryEvent>, tag: Seq<char>) -> bool {
    exists|i: int|
        0 <= i < events.len() && (#[trigger] events[i] matches RegistryEvent::Shown { tag: t, .. }
            && t == tag)
}

/// A tag for which nothing was ever shown has no handle.
pub proof fn lemma_unseen_tag_has_no_handle(events: Seq<RegistryEvent>, tag: Seq<char>)
    requires
        !shown_before(events, tag),
    ensures
        handle_for(replay(events), tag) == NO_HANDLE,
    decreases events.len(),
{
    if events.len() > 0 {
        let prefix = events.drop_last();
        assert forall|i: int| 0 <= i < prefix.len() implies !(#[trigger] prefix[i] matches RegistryEvent::Shown {
            tag: t,
            ..
        } && t == tag) by {
            assert(prefix[i] == events[i]);
        }
        lemma_unseen_tag_has_no_handle(prefix, tag);
        assert(!(events[events.len() - 1] matches RegistryEvent::Shown { tag: t, .. } && t == tag));
    }
}

/// The registry of the latest notification handle shown for each tag.
pub struct TagRegistry {
    handles: TagMap<u32>,
}

impl View for TagRegistry {
    type V = Map<Seq<char>, u32>;

    closed spec fn view(&self) -> Map<Seq<char>, u32> {
        self.handles@
    }
}

impl TagRegistry {
    /// The entries are well formed.
    pub closed spec fn wf(&self) -> bool {
        self.handles.wf()
    }

    pub fn new() -> (r: TagRegistry)
        ensures
            r.wf(),
            r@ == Map::<Seq<char>, u32>::empty(),
    {
        TagRegistry { handles: TagMap::new() }
    }

    /// The handle recorded for `tag`, or `NO_HANDLE` if there is none.
    pub fn lookup_or_default(&self, tag: &str) -> (r: u32)
        requires
            self.wf(),
        ensures
            r == handle_for(self@, tag@),
    {
        match self.handles.get(tag) {
            Some(h) => h,
            None => NO_HANDLE,
        }
    }

    /// Records `handle` as the current one for `tag`.
    pub fn upsert(&mut self, tag: &str, handle: u32)
        requires
            old(self).wf(),
        ensures
            final(self).wf(),
            final(self)@ == apply_event(old(self)@, RegistryEvent::Shown { tag: tag@, handle }),
    {
        self.handles.insert(tag, handle);
    }

    /// Forgets every tag whose current handle is `handle`; a tag that has moved
    /// on to a newer handle keeps it.
    pub fn remove_by_handle(&mut self, handle: u32)
        requires
            old(self).wf(),
        ensures
            final(self).wf(),
            final(self)@ == apply_event(old(self)@, RegistryEvent::Closed { handle }),
    {
        self.handles.remove_value(handle);
    }
}

} // verus!
