//! Correlation identifiers stamped on every outbound request envelope.
use vstd::prelude::*;

verus! {

/// Source of correlation identifiers: strictly increasing, never zero.
pub struct RequestIds {
    next: u64,
}

impl RequestIds {
    /// The identifier that the next call of `generate_request_id` hands out.
    pub closed spec fn next_id(&self) -> u64 {
        self.next
    }

    pub closed spec fn wf(&self) -> bool {
        self.next >= 1
    }

    /// A fresh source whose first identifier is 1.
    pub fn new() -> (r: RequestIds)
        ensures
            r.wf(),
            r.next_id() == 1,
    {
        RequestIds { next: 1 }
    }

    /// Whether another identifier can still be handed out without wrapping.
    pub fn can_issue(&self) -> (r: bool)
        ensures
            r == (self.next_id() < u64::MAX),
    {
        self.next < u64::MAX
    }
}

/// Hands out the next correlation identifier and advances the source by one.
pub fn generate_request_id(ids: &mut RequestIds) -> (id: u64)
    requires
        old(ids).wf(),
        old(ids).next_id() < u64::MAX,
    ensures
        final(ids).wf(),
        id == old(ids).next_id(),
        id >= 1,
        final(ids).next_id() == id + 1,
{
    let id = ids.next;
    ids.next = id + 1;
    id
}

} // verus!
