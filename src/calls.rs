//! The call table of a port's client: every outbound call holds a tag, the
//! index of a slot here, from the moment it is sent until its caller has
//! taken the response. Responses are matched to callers by tag alone, so they
//! may arrive in any order; shutdown releases every waiting caller.

use vstd::prelude::*;

verus! {

/// Tag of an outstanding call: the index of its slot in the call table.
pub type CallTag = u32;

/// The state of one call slot.
#[derive(PartialEq, Eq, Debug)]
pub enum SlotState {
    /// No call holds this slot.
    Free,
    /// A call was sent and its caller waits for the response.
    Waiting,
    /// The response has arrived and waits for its caller.
    Answered(Vec<u8>),
    /// The port shut down while the call was waiting.
    Closed,
}

/// Why a call could not start.
#[derive(PartialEq, Eq, Structural, Debug, Clone, Copy)]
pub enum CallError {
    /// The port has shut down.
    ShutDown,
    /// Every slot holds an outstanding call.
    NoFreeSlot,
}

/// Why a response was refused: a response must answer a waiting call, once.
#[derive(PartialEq, Eq, Structural, Debug, Clone, Copy)]
pub enum DeliverError {
    /// No call with this tag is waiting.
    UnexpectedTag,
}

/// What a caller finds when it looks at its slot.
#[derive(PartialEq, Eq, Debug)]
pub enum CallPoll {
    /// The response has not arrived yet.
    Pending,
    /// The response; the slot is free again.
    Response(Vec<u8>),
    /// The port shut down before the response arrived; the slot is free again.
    Shutdown,
    /// No call with this tag is outstanding.
    NotOutstanding,
}

/// The first free slot at or after `start`, or the length when none is free.
pub open spec fn free_slot_from(slots: Seq<SlotState>, start: int) -> int
    decreases slots.len() - start,
{
    if start < 0 || start >= slots.len() {
        slots.len() as int
    } else if slots[start] is Free {
        start
    } else {
        free_slot_from(slots, start + 1)
    }
}

/// The slot that the next call takes.
pub open spec fn first_free_slot(slots: Seq<SlotState>) -> int {
    free_slot_from(slots, 0)
}

/// The slots once every waiting call has been closed.
pub open spec fn closed_all(slots: Seq<SlotState>) -> Seq<SlotState> {
    slots.map_values(|s: SlotState| if s is Waiting { SlotState::Closed } else { s })
}

/// The outbound calls of one port.
pub struct CallTable {
    /// One slot per possible outstanding call.
    pub slots: Vec<SlotState>,
    /// Whether the port has shut down.
    pub shut_down: bool,
}

impl CallTable {
    /// After shutdown, no call waits any more.
    pub open spec fn wf(&self) -> bool {
        self.slots@.len() <= u32::MAX && (self.shut_down ==> forall|i: int| 0 <= i < self.slots@.len() ==> !(#[trigger] self.slots@[i] is Waiting))
    }

    /// Whether a call with tag `tag` is outstanding.
    pub open spec fn outstanding(&self, tag: CallTag) -> bool {
        (tag as int) < self.slots@.len() && !(self.slots@[tag as int] is Free)
    }

    /// A table of `call_slots` free slots.
    pub fn new(call_slots: u32) -> (r: Self)
        ensures
            r.wf(),
            !r.shut_down,
            r.slots@.len() == call_slots,
            forall|i: int| 0 <= i < call_slots ==> r.slots@[i] is Free,
    {
        let mut slots: Vec<SlotState> = Vec::new();
        let mut i: u32 = 0;
        while i < call_slots
            invariant
                i <= call_slots,
                slots@.len() == i,
                forall|j: int| 0 <= j < i ==> slots@[j] is Free,
            decreases call_slots - i,
        {
            slots.push(SlotState::Free);
            i = i + 1;
        }
        CallTable { slots, shut_down: false }
    }

    /// Starts a call: it takes the first free slot, whose index is its tag.
    /// A tag is never handed out while a call holding it is outstanding.
    pub fn begin_call(&mut self) -> (r: Result<CallTag, CallError>)
        requires
            old(self).wf(),
        ensures
            final(self).wf(),
            final(self).shut_down == old(self).shut_down,
            old(self).shut_down ==> r == Err::<CallTag, CallError>(CallError::ShutDown),
            !old(self).shut_down && first_free_slot(old(self).slots@) == old(self).slots@.len()
                ==> r == Err::<CallTag, CallError>(CallError::NoFreeSlot),
            r is Err ==> final(self).slots@ == old(self).slots@,
            !old(self).shut_down && first_free_slot(old(self).slots@) < old(self).slots@.len() ==> r is Ok,
            r matches Ok(tag) ==> {
                &&& tag as int == first_free_slot(old(self).slots@)
                &&& (tag as int) < old(self).slots@.len()
                &&& !old(self).outstanding(tag)
                &&& final(self).slots@ == old(self).slots@.update(tag as int, SlotState::Waiting)
            },
    {
        if self.shut_down {
            return Err(CallError::ShutDown);
        }
        let mut i: usize = 0;
        while i < self.slots.len()
            invariant
                self.wf(),
                !self.shut_down,
                *self == *old(self),
                i <= self.slots@.len(),
                free_slot_from(self.slots@, i as int) == first_free_slot(self.slots@),
            decreases self.slots@.len() - i,
        {
            if matches!(self.slots[i], SlotState::Free) {
                self.slots.set(i, SlotState::Waiting);
                return Ok(i as CallTag);
            }
            i = i + 1;
        }
        Err(CallError::NoFreeSlot)
    }

    /// Hands a response to the call with tag `tag`. Only that call's slot
    /// changes; a response for a call that is not waiting is refused.
    pub fn deliver(&mut self, tag: CallTag, payload: Vec<u8>) -> (r: Result<(), DeliverError>)
        requires
            old(self).wf(),
        ensures
            final(self).wf(),
            final(self).shut_down == old(self).shut_down,
            r is Ok <==> (tag as int) < old(self).slots@.len() && old(self).slots@[tag as int] is Waiting,
            r is Err ==> final(self).slots@ == old(self).slots@,
            r is Ok ==> final(self).slots@ == old(self).slots@.update(tag as int, SlotState::Answered(payload)),
    {
        let i = tag as usize;
        if i >= self.slots.len() {
            return Err(DeliverError::UnexpectedTag);
        }
        if !matches!(self.slots[i], SlotState::Waiting) {
            return Err(DeliverError::UnexpectedTag);
        }
        self.slots.set(i, SlotState::Answered(payload));
        Ok(())
    }

    /// Looks at the slot of the call with tag `tag`. A response or a
    /// shutdown ends the call and frees its slot.
    pub fn poll(&mut self, tag: CallTag) -> (r: CallPoll)
        requires
            old(self).wf(),
        ensures
            final(self).wf(),
            final(self).shut_down == old(self).shut_down,
            !old(self).outstanding(tag) ==> r == CallPoll::NotOutstanding && final(self).slots@ == old(self).slots@,
            old(self).outstanding(tag) ==> match old(self).slots@[tag as int] {
                SlotState::Waiting => r == CallPoll::Pending && final(self).slots@ == old(self).slots@,
                SlotState::Answered(p) => r == CallPoll::Response(p)
                    && final(self).slots@ == old(self).slots@.update(tag as int, SlotState::Free),
                _ => r == CallPoll::Shutdown
                    && final(self).slots@ == old(self).slots@.update(tag as int, SlotState::Free),
            },
    {
        let i = tag as usize;
        if i >= self.slots.len() {
            return CallPoll::NotOutstanding;
        }
        if matches!(self.slots[i], SlotState::Free) {
            return CallPoll::NotOutstanding;
        }
        if matches!(self.slots[i], SlotState::Waiting) {
            return CallPoll::Pending;
        }
        let state = self.slots.remove(i);
        self.slots.insert(i, SlotState::Free);
        assert(self.slots@ =~= old(self).slots@.update(tag as int, SlotState::Free));
        match state {
            SlotState::Answered(p) => CallPoll::Response(p),
            _ => CallPoll::Shutdown,
        }
    }

    /// Shuts the table down: every waiting call is closed, so that its
    /// caller stops waiting, and no new call can start.
    pub fn shutdown(&mut self)
        requires
            old(self).wf(),
        ensures
            final(self).wf(),
            final(self).shut_down,
            final(self).slots@ == closed_all(old(self).slots@),
    {
        let mut i: usize = 0;
        while i < self.slots.len()
            invariant
                i <= self.slots@.len(),
                self.slots@.len() == old(self).slots@.len(),
                old(self).slots@.len() <= u32::MAX,
                forall|j: int| 0 <= j < i ==> self.slots@[j] == closed_all(old(self).slots@)[j],
                forall|j: int| i <= j < self.slots@.len() ==> self.slots@[j] == old(self).slots@[j],
            decreases self.slots@.len() - i,
        {
            if matches!(self.slots[i], SlotState::Waiting) {
                self.slots.set(i, SlotState::Closed);
            }
            i = i + 1;
        }
        self.shut_down = true;
        assert(self.slots@ =~= closed_all(old(self).slots@));
    }
}

/// The slots after the responses `ds`, each a tag and its payload, have
/// been delivered one after the other, in the order of `ds`.
pub open spec fn deliver_all(slots: Seq<SlotState>, ds: Seq<(CallTag, Vec<u8>)>) -> Seq<SlotState>
    decreases ds.len(),
{
    if ds.len() == 0 {
        slots
    } else {
        deliver_all(slots.update(ds[0].0 as int, SlotState::Answered(ds[0].1)), ds.drop_first())
    }
}

/// Responses reach the callers whose tags they carry: when any number of
/// calls wait and their responses arrive one by one, in whatever order,
/// every call ends up with its own response and every other slot is left
/// as it was. Every delivery is accepted on the way.
pub proof fn lemma_responses_reach_their_callers(slots: Seq<SlotState>, ds: Seq<(CallTag, Vec<u8>)>)
    requires
        forall|i: int| 0 <= i < ds.len() ==> (#[trigger] ds[i]).0 < slots.len() && slots[ds[i].0 as int] is Waiting,
        forall|i: int, j: int| 0 <= i < j < ds.len() ==> ds[i].0 != ds[j].0,
    ensures
        deliver_all(slots, ds).len() == slots.len(),
        forall|i: int| 0 <= i < ds.len() ==> deliver_all(slots, ds)[(#[trigger] ds[i]).0 as int] == SlotState::Answered(ds[i].1),
        forall|k: int| 0 <= k < slots.len() && (forall|i: int| 0 <= i < ds.len() ==> (#[trigger] ds[i]).0 != k)
            ==> deliver_all(slots, ds)[k] == slots[k],
    decreases ds.len(),
{
    if ds.len() > 0 {
        let next = slots.update(ds[0].0 as int, SlotState::Answered(ds[0].1));
        let rest = ds.drop_first();
        assert forall|i: int| 0 <= i < rest.len() implies (#[trigger] rest[i]).0 < next.len() && next[rest[i].0 as int] is Waiting by {
            assert(rest[i] == ds[i + 1]);
            assert(ds[0].0 != ds[i + 1].0);
        }
        assert forall|i: int, j: int| 0 <= i < j < rest.len() implies rest[i].0 != rest[j].0 by {
            assert(rest[i] == ds[i + 1]);
            assert(rest[j] == ds[j + 1]);
        }
        lemma_responses_reach_their_callers(next, rest);
        assert(deliver_all(slots, ds) == deliver_all(next, rest));
        assert forall|i: int| 0 <= i < ds.len() implies deliver_all(slots, ds)[(#[trigger] ds[i]).0 as int] == SlotState::Answered(ds[i].1) by {
            if i == 0 {
                assert forall|m: int| 0 <= m < rest.len() implies (#[trigger] rest[m]).0 != ds[0].0 by {
                    assert(rest[m] == ds[m + 1]);
                }
                assert(deliver_all(next, rest)[ds[0].0 as int] == next[ds[0].0 as int]);
            } else {
                assert(rest[i - 1] == ds[i]);
            }
        }
        assert forall|k: int| 0 <= k < slots.len() && (forall|i: int| 0 <= i < ds.len() ==> (#[trigger] ds[i]).0 != k)
            implies deliver_all(slots, ds)[k] == slots[k] by {
            assert(ds[0].0 != k);
            assert forall|m: int| 0 <= m < rest.len() implies (#[trigger] rest[m]).0 != k by {
                assert(rest[m] == ds[m + 1]);
            }
            assert(deliver_all(next, rest)[k] == next[k]);
        }
    }
}

/// Shutdown releases every blocked caller: after it, no call waits, so the
/// next look at any outstanding call ends it; a call that was still waiting
/// ends with the shutdown signal.
pub proof fn lemma_shutdown_releases_callers(before: CallTable, after: CallTable, tag: CallTag)
    requires
        before.wf(),
        after.slots@ == closed_all(before.slots@),
        before.outstanding(tag),
    ensures
        after.outstanding(tag),
        !(after.slots@[tag as int] is Waiting),
        before.slots@[tag as int] is Waiting ==> after.slots@[tag as int] is Closed,
        !(before.slots@[tag as int] is Waiting) ==> after.slots@[tag as int] == before.slots@[tag as int],
{
}

} // verus!
