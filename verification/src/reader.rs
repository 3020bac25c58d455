//! The asynchronous read bridge: a reader that owns a bounded submission
//! queue and a completion queue, both modelled as plain values, and the
//! handles and poll adapter built over them.
//!
//! One reader is tied to one open store. A submitted read is recorded in a
//! result-slot arena owned by the reader; the handle a caller gets back is
//! a non-owning index into that arena, never an owner of the slot. The
//! reader is the unit of progress: a poll of one handle may drain the
//! completion queue and thereby resolve the slots of other handles first.
//!
//! Delivery of completions stands in for the kernel finishing I/O on
//! queued submissions; it is an explicit step here so that every poll path
//! of the adapter, including the not-ready one, is reachable and proved.

use vstd::prelude::*;

use crate::engine::{lookup_status, lookup_value, Db};
use crate::status::RustStatus;

verus! {

/// Where a submitted operation stands in its life.
#[derive(Copy, Clone, Debug, PartialEq, Eq, Structural)]
pub enum SlotState {
    /// Queued on the submission side; the kernel has not finished it.
    InFlight,
    /// Finished by the kernel and sitting in the completion queue,
    /// not yet reaped.
    Completed,
    /// Reaped, or resolved at submission; the result awaits its one
    /// consuming poll.
    Resolved,
    /// The result was handed out; the slot is spent.
    Consumed,
}

/// One result slot: the outcome of a read, pinned at submission, and the
/// state of the operation that fills it.
struct Slot {
    value: String,
    status: RustStatus,
    state: SlotState,
}

/// Whether the queue `s` holds an entry for slot `i`.
spec fn queued_in(s: Seq<usize>, i: int) -> bool {
    exists|j: int| 0 <= j < s.len() && s[j] as int == i
}

/// The options a read is issued with: reduced to the one thing the bridge
/// reads off them, whether the submission handler routes reads through
/// the reader's queue.
pub struct ReadOptions {
    queue_routed: bool,
}

impl ReadOptions {
    /// Whether a submission handler was installed on these options.
    pub closed spec fn submission_handler_installed(&self) -> bool {
        self.queue_routed
    }

    /// Fresh options: reads issued with them resolve synchronously until
    /// a reader installs its submission handler on them.
    pub fn new() -> (r: ReadOptions)
        ensures
            !r.submission_handler_installed(),
    {
        ReadOptions { queue_routed: false }
    }
}

/// The token a submission returns: a transient capability naming the
/// result slot inside the owning reader's arena. It owns nothing; it must
/// be polled on the reader that produced it.
#[derive(Copy, Clone, Debug, PartialEq, Eq, Structural)]
pub struct AsyncOperationHandle {
    slot: usize,
}

impl AsyncOperationHandle {
    /// The index of the result slot this handle names.
    pub closed spec fn slot_index(&self) -> int {
        self.slot as int
    }
}

/// What one poll of a handle reports.
#[derive(Debug)]
pub enum PollOutcome {
    /// The operation resolved; the value and status are handed out
    /// exactly once.
    Ready(String, RustStatus),
    /// Nothing ready; the caller must poll again later.
    Pending,
    /// A protocol violation, reported instead of crashing: the handle was
    /// consumed before, or it does not name a slot of this reader.
    Misuse,
}

/// The bridge between one open store and the queue facility: owner of the
/// result-slot arena, the bounded in-flight queue, the completion queue,
/// and the pending counter.
pub struct AsyncReader {
    db: Db,
    queue_depth: u32,
    slots: Vec<Slot>,
    in_flight: Vec<usize>,
    ready: Vec<usize>,
    pending: u32,
}

impl AsyncReader {
    /// The store this reader reads from.
    pub closed spec fn db_view(&self) -> Map<Seq<char>, Seq<char>> {
        self.db@
    }

    /// The fixed depth of the submission queue.
    pub closed spec fn depth(&self) -> u32 {
        self.queue_depth
    }

    /// How many result slots the arena holds.
    pub closed spec fn num_slots(&self) -> int {
        self.slots@.len() as int
    }

    /// The state of slot `i`.
    pub closed spec fn slot_state(&self, i: int) -> SlotState {
        self.slots@[i].state
    }

    /// The value slot `i` resolves to.
    pub closed spec fn slot_value(&self, i: int) -> Seq<char> {
        self.slots@[i].value@
    }

    /// The status slot `i` resolves to.
    pub closed spec fn slot_status(&self, i: int) -> RustStatus {
        self.slots@[i].status
    }

    /// How many submissions the kernel still works on.
    pub closed spec fn in_flight_count(&self) -> int {
        self.in_flight@.len() as int
    }

    /// How many completions sit in the completion queue, ready to reap.
    pub closed spec fn ready_count(&self) -> int {
        self.ready@.len() as int
    }

    /// The submitted-but-unreaped counter.
    pub closed spec fn pending_spec(&self) -> u32 {
        self.pending
    }

    /// Whether `h` names a slot of this reader's arena.
    pub open spec fn valid_handle(&self, h: AsyncOperationHandle) -> bool {
        0 <= h.slot_index() < self.num_slots()
    }

    /// Whether a submission issued with `ropts` can enter the queue: the
    /// handler is installed, a submission-queue entry is free, and the
    /// pending counter can still grow.
    pub open spec fn can_queue(&self, ropts: &ReadOptions) -> bool {
        &&& ropts.submission_handler_installed()
        &&& self.in_flight_count() < self.depth() as int
        &&& self.pending_spec() < u32::MAX
    }

    /// The reader's invariant: the pending counter counts exactly the
    /// queued and the ready entries; the in-flight queue respects the
    /// depth; both queues name distinct slots in the matching state; and
    /// every slot in a queued state sits in the matching queue.
    pub closed spec fn wf(&self) -> bool {
        &&& self.pending as int == self.in_flight@.len() + self.ready@.len()
        &&& self.in_flight@.len() <= self.queue_depth as int
        &&& forall|j: int|
            0 <= j < self.in_flight@.len() ==> (#[trigger] self.in_flight@[j]) < self.slots@.len()
                && self.slots@[self.in_flight@[j] as int].state == SlotState::InFlight
        &&& forall|j: int|
            0 <= j < self.ready@.len() ==> (#[trigger] self.ready@[j]) < self.slots@.len()
                && self.slots@[self.ready@[j] as int].state == SlotState::Completed
        &&& forall|i: int|
            0 <= i < self.slots@.len() && (#[trigger] self.slots@[i]).state == SlotState::InFlight
                ==> queued_in(self.in_flight@, i)
        &&& forall|i: int|
            0 <= i < self.slots@.len() && (#[trigger] self.slots@[i]).state == SlotState::Completed
                ==> queued_in(self.ready@, i)
        &&& self.in_flight@.no_duplicates()
        &&& self.ready@.no_duplicates()
    }

    /// A fresh reader over `db` with a submission queue of the given
    /// depth: no slots, nothing queued, nothing pending.
    pub fn create(db: Db, queue_depth: u32) -> (r: AsyncReader)
        ensures
            r.wf(),
            r.db_view() == db@,
            r.depth() == queue_depth,
            r.num_slots() == 0,
            r.in_flight_count() == 0,
            r.ready_count() == 0,
            r.pending_spec() == 0,
    {
        AsyncReader {
            db,
            queue_depth,
            slots: Vec::new(),
            in_flight: Vec::new(),
            ready: Vec::new(),
            pending: 0,
        }
    }

    /// Installs this reader's submission handler on `ropts`: reads issued
    /// with them afterwards route through the reader's queue instead of
    /// resolving synchronously.
    pub fn setup_submission_handler(&self, ropts: &mut ReadOptions)
        ensures
            final(ropts).submission_handler_installed(),
    {
        ropts.queue_routed = true;
    }

    /// Reports whether at least one completion sits in the completion
    /// queue. Never blocks, never changes anything.
    pub fn peek_completions(&self) -> (b: bool)
        ensures
            b == (self.ready_count() > 0),
    {
        self.ready.len() > 0
    }

    /// The submitted-but-unreaped counter, reader-global.
    pub fn pending_count(&self) -> (n: u32)
        ensures
            n == self.pending_spec(),
    {
        self.pending
    }

    /// Enqueues a lookup of `key` under `ropts` and returns its handle at
    /// once. The outcome of the read is pinned into a fresh result slot
    /// at submission. When the options route through the queue and a
    /// submission-queue entry is free, the slot goes in flight and the
    /// pending counter grows; otherwise the read resolves synchronously
    /// on the spot. In particular a full submission queue falls back to a
    /// synchronous read, so no submission is ever lost or refused.
    pub fn submit_read(&mut self, ropts: &ReadOptions, key: String) -> (h: AsyncOperationHandle)
        requires
            old(self).wf(),
        ensures
            final(self).wf(),
            final(self).db_view() == old(self).db_view(),
            final(self).depth() == old(self).depth(),
            final(self).num_slots() == old(self).num_slots() + 1,
            h.slot_index() == old(self).num_slots(),
            final(self).valid_handle(h),
            final(self).slot_value(h.slot_index()) == lookup_value(old(self).db_view(), key@),
            final(self).slot_status(h.slot_index()) == lookup_status(old(self).db_view(), key@),
            forall|i: int|
                0 <= i < old(self).num_slots() ==> final(self).slot_value(i) == old(self).slot_value(i) && final(self).slot_status(i) == old(self).slot_status(i) && final(self).slot_state(i) == old(self).slot_state(i),
            old(self).can_queue(ropts) ==> final(self).slot_state(h.slot_index())
                == SlotState::InFlight && final(self).pending_spec() == old(self).pending_spec()
                + 1 && final(self).in_flight_count() == old(self).in_flight_count() + 1 && final(self).ready_count() == old(self).ready_count(),
            !old(self).can_queue(ropts) ==> final(self).slot_state(h.slot_index())
                == SlotState::Resolved && final(self).pending_spec() == old(self).pending_spec()
                && final(self).in_flight_count() == old(self).in_flight_count() && final(self).ready_count() == old(self).ready_count(),
    {
        let (value, status) = self.db.lookup(&key);
        let idx = self.slots.len();
        if self.options_route(ropts) && self.in_flight.len() < self.queue_depth as usize
            && self.pending < u32::MAX {
            self.slots.push(Slot { value, status, state: SlotState::InFlight });
            self.in_flight.push(idx);
            self.pending = self.pending + 1;
            proof {
                let old_if = old(self).in_flight@;
                let old_slots = old(self).slots@;
                assert(self.in_flight@[old_if.len() as int] == idx);
                assert forall|i: int|
                    0 <= i < self.slots@.len() && (#[trigger] self.slots@[i]).state
                        == SlotState::InFlight implies queued_in(self.in_flight@, i) by {
                    if i < old_slots.len() {
                        let j = choose|j: int| 0 <= j < old_if.len() && old_if[j] as int == i;
                        assert(self.in_flight@[j] as int == i);
                    } else {
                        assert(self.in_flight@[old_if.len() as int] as int == i);
                    }
                }
                assert forall|i: int|
                    0 <= i < self.slots@.len() && (#[trigger] self.slots@[i]).state
                        == SlotState::Completed implies queued_in(self.ready@, i) by {
                    let j = choose|j: int|
                        0 <= j < old(self).ready@.len() && old(self).ready@[j] as int == i;
                    assert(self.ready@[j] as int == i);
                }
                assert forall|j: int| 0 <= j < old_if.len() implies (#[trigger] old_if[j])
                    != idx by {
                    assert((old_if[j] as int) < (old_slots.len() as int));
                }
                assert(self.in_flight@.no_duplicates());
            }
        } else {
            self.slots.push(Slot { value, status, state: SlotState::Resolved });
            proof {
                assert forall|i: int|
                    0 <= i < self.slots@.len() && (#[trigger] self.slots@[i]).state
                        == SlotState::InFlight implies queued_in(self.in_flight@, i) by {
                    let j = choose|j: int|
                        0 <= j < old(self).in_flight@.len() && old(self).in_flight@[j] as int == i;
                    assert(self.in_flight@[j] as int == i);
                }
                assert forall|i: int|
                    0 <= i < self.slots@.len() && (#[trigger] self.slots@[i]).state
                        == SlotState::Completed implies queued_in(self.ready@, i) by {
                    let j = choose|j: int|
                        0 <= j < old(self).ready@.len() && old(self).ready@[j] as int == i;
                    assert(self.ready@[j] as int == i);
                }
            }
        }
        AsyncOperationHandle { slot: idx }
    }

    /// Reads the routing flag off the options.
    fn options_route(&self, ropts: &ReadOptions) -> (b: bool)
        ensures
            b == ropts.submission_handler_installed(),
    {
        ropts.queue_routed
    }

    /// The kernel's side of the queue, taken as an explicit step: finishes
    /// up to `max` in-flight submissions and puts their completions into
    /// the completion queue. No promise is made about which submissions
    /// finish first. The pending counter does not move: delivered entries
    /// are still unreaped.
    pub fn deliver_completions(&mut self, max: u32) -> (n: u32)
        requires
            old(self).wf(),
        ensures
            final(self).wf(),
            final(self).db_view() == old(self).db_view(),
            final(self).depth() == old(self).depth(),
            final(self).num_slots() == old(self).num_slots(),
            forall|i: int|
                0 <= i < old(self).num_slots() ==> final(self).slot_value(i) == old(self).slot_value(i) && final(self).slot_status(i) == old(self).slot_status(i),
            n as int == if max as int <= old(self).in_flight_count() {
                max as int
            } else {
                old(self).in_flight_count()
            },
            final(self).in_flight_count() == old(self).in_flight_count() - n as int,
            final(self).ready_count() == old(self).ready_count() + n as int,
            final(self).pending_spec() == old(self).pending_spec(),
            forall|i: int|
                0 <= i < old(self).num_slots() && old(self).slot_state(i) != SlotState::InFlight
                    ==> final(self).slot_state(i) == old(self).slot_state(i),
            forall|i: int|
                0 <= i < old(self).num_slots() && final(self).slot_state(i) != old(self).slot_state(i) ==> old(self).slot_state(i) == SlotState::InFlight && final(self).slot_state(i) == SlotState::Completed,
    {
        let mut n: u32 = 0;
        while n < max && self.in_flight.len() > 0
            invariant
                self.wf(),
                self.db@ == old(self).db@,
                self.queue_depth == old(self).queue_depth,
                self.pending == old(self).pending,
                self.slots@.len() == old(self).slots@.len(),
                n <= max,
                n as int <= old(self).in_flight@.len(),
                self.in_flight@.len() == old(self).in_flight@.len() - n as int,
                self.ready@.len() == old(self).ready@.len() + n as int,
                forall|i: int|
                    0 <= i < old(self).slots@.len() ==> self.slots@[i].value == old(self).slots@[i].value && self.slots@[i].status == old(self).slots@[i].status,
                forall|i: int|
                    0 <= i < old(self).slots@.len() && old(self).slots@[i].state
                        != SlotState::InFlight ==> self.slots@[i].state == old(self).slots@[i].state,
                forall|i: int|
                    0 <= i < old(self).slots@.len() && self.slots@[i].state != old(self).slots@[i].state ==> old(self).slots@[i].state == SlotState::InFlight
                        && self.slots@[i].state == SlotState::Completed,
            decreases max - n,
        {
            let ghost pre = *self;
            let idx = self.in_flight.pop().unwrap();
            self.slots[idx].state = SlotState::Completed;
            self.ready.push(idx);
            n = n + 1;
            proof {
                let pre_if = pre.in_flight@;
                assert(idx == pre_if[pre_if.len() - 1]);
                assert(self.in_flight@ =~= pre_if.subrange(0, pre_if.len() - 1));
                assert(self.slots@[idx as int].state == SlotState::Completed);
                assert(self.ready@[self.ready@.len() - 1] == idx);
                assert forall|j: int|
                    0 <= j < self.in_flight@.len() implies (#[trigger] self.in_flight@[j])
                        < self.slots@.len() && self.slots@[self.in_flight@[j] as int].state
                        == SlotState::InFlight by {
                    assert(self.in_flight@[j] == pre_if[j]);
                    assert(pre_if[j] != pre_if[pre_if.len() - 1]);
                    assert(pre.slots@[pre_if[j] as int].state == SlotState::InFlight);
                }
                assert forall|i: int|
                    0 <= i < self.slots@.len() && (#[trigger] self.slots@[i]).state
                        == SlotState::InFlight implies queued_in(self.in_flight@, i) by {
                    assert(pre.slots@[i].state == SlotState::InFlight);
                    let j = choose|j: int| 0 <= j < pre_if.len() && pre_if[j] as int == i;
                    assert(i != idx as int);
                    assert(pre_if[j] != pre_if[pre_if.len() - 1]);
                    assert(j != pre_if.len() - 1);
                    assert(self.in_flight@[j] as int == i);
                }
                assert forall|i: int|
                    0 <= i < self.slots@.len() && (#[trigger] self.slots@[i]).state
                        == SlotState::Completed implies queued_in(self.ready@, i) by {
                    if i != idx as int {
                        assert(pre.slots@[i].state == SlotState::Completed);
                        let j = choose|j: int|
                            0 <= j < pre.ready@.len() && pre.ready@[j] as int == i;
                        assert(self.ready@[j] as int == i);
                    } else {
                        assert(self.ready@[self.ready@.len() - 1] as int == i);
                    }
                }
                assert forall|j: int| 0 <= j < pre.ready@.len() implies (#[trigger] pre.ready@[j])
                    != idx by {
                    assert(pre.slots@[pre.ready@[j] as int].state == SlotState::Completed);
                    assert(pre.slots@[idx as int].state == SlotState::InFlight);
                }
                assert(self.ready@.no_duplicates());
            }
        }
        n
    }

    /// Drains the completion queue: every delivered completion is reaped,
    /// its slot resolved, and the pending counter drops by the number
    /// reaped, which is returned. Reads whose submissions are still in
    /// flight are untouched.
    pub fn reap_completions(&mut self) -> (n: u32)
        requires
            old(self).wf(),
        ensures
            final(self).wf(),
            final(self).db_view() == old(self).db_view(),
            final(self).depth() == old(self).depth(),
            final(self).num_slots() == old(self).num_slots(),
            forall|i: int|
                0 <= i < old(self).num_slots() ==> final(self).slot_value(i) == old(self).slot_value(i) && final(self).slot_status(i) == old(self).slot_status(i),
            n as int == old(self).ready_count(),
            final(self).ready_count() == 0,
            final(self).in_flight_count() == old(self).in_flight_count(),
            final(self).pending_spec() as int == old(self).pending_spec() - n as int,
            forall|i: int|
                0 <= i < old(self).num_slots() && old(self).slot_state(i) == SlotState::Completed
                    ==> final(self).slot_state(i) == SlotState::Resolved,
            forall|i: int|
                0 <= i < old(self).num_slots() && old(self).slot_state(i) != SlotState::Completed
                    ==> final(self).slot_state(i) == old(self).slot_state(i),
    {
        let n = self.ready.len() as u32;
        while self.ready.len() > 0
            invariant
                self.db@ == old(self).db@,
                self.queue_depth == old(self).queue_depth,
                self.pending == old(self).pending,
                self.in_flight@ == old(self).in_flight@,
                self.slots@.len() == old(self).slots@.len(),
                self.pending as int == self.in_flight@.len() + old(self).ready@.len(),
                self.in_flight@.len() <= self.queue_depth as int,
                self.in_flight@.no_duplicates(),
                self.ready@.no_duplicates(),
                self.ready@.len() <= old(self).ready@.len(),
                self.ready@ =~= old(self).ready@.subrange(0, self.ready@.len() as int),
                forall|i: int|
                    0 <= i < old(self).slots@.len() ==> self.slots@[i].value == old(self).slots@[i].value && self.slots@[i].status == old(self).slots@[i].status,
                forall|j: int|
                    0 <= j < self.in_flight@.len() ==> (#[trigger] self.in_flight@[j])
                        < self.slots@.len() && self.slots@[self.in_flight@[j] as int].state
                        == SlotState::InFlight,
                forall|j: int|
                    0 <= j < self.ready@.len() ==> (#[trigger] self.ready@[j]) < self.slots@.len()
                        && self.slots@[self.ready@[j] as int].state == SlotState::Completed,
                forall|i: int|
                    0 <= i < self.slots@.len() && (#[trigger] self.slots@[i]).state
                        == SlotState::InFlight ==> queued_in(self.in_flight@, i),
                forall|i: int|
                    0 <= i < self.slots@.len() && (#[trigger] self.slots@[i]).state
                        == SlotState::Completed ==> queued_in(self.ready@, i),
                forall|i: int|
                    0 <= i < old(self).slots@.len() && old(self).slots@[i].state
                        == SlotState::Completed && self.slots@[i].state != SlotState::Completed
                        ==> self.slots@[i].state == SlotState::Resolved,
                forall|i: int|
                    0 <= i < old(self).slots@.len() && old(self).slots@[i].state
                        != SlotState::Completed ==> self.slots@[i].state == old(self).slots@[i].state,
            decreases self.ready@.len(),
        {
            let ghost pre = *self;
            let idx = self.ready.pop().unwrap();
            self.slots[idx].state = SlotState::Resolved;
            proof {
                let pre_ready = pre.ready@;
                assert(idx == pre_ready[pre_ready.len() - 1]);
                assert(self.ready@ =~= pre_ready.subrange(0, pre_ready.len() - 1));
                assert(self.slots@[idx as int].state == SlotState::Resolved);
                assert(self.ready@.len() == pre_ready.len() - 1);
                assert forall|k: int| 0 <= k < self.ready@.len() implies self.ready@[k] == old(self).ready@[k] by {
                    assert(self.ready@[k] == pre_ready[k]);
                    assert(pre_ready[k] == old(self).ready@.subrange(
                        0,
                        pre_ready.len() as int,
                    )[k]);
                }
                assert(self.ready@ =~= old(self).ready@.subrange(0, self.ready@.len() as int));
                assert forall|j: int|
                    0 <= j < self.in_flight@.len() implies (#[trigger] self.in_flight@[j])
                        < self.slots@.len() && self.slots@[self.in_flight@[j] as int].state
                        == SlotState::InFlight by {
                    assert(pre.slots@[self.in_flight@[j] as int].state == SlotState::InFlight);
                    assert(self.in_flight@[j] as int != idx as int);
                }
                assert forall|j: int|
                    0 <= j < self.ready@.len() implies (#[trigger] self.ready@[j])
                        < self.slots@.len() && self.slots@[self.ready@[j] as int].state
                        == SlotState::Completed by {
                    assert(self.ready@[j] == pre_ready[j]);
                    assert(pre.slots@[pre_ready[j] as int].state == SlotState::Completed);
                    assert(pre_ready[j] != pre_ready[pre_ready.len() - 1]);
                }
                assert forall|i: int|
                    0 <= i < self.slots@.len() && (#[trigger] self.slots@[i]).state
                        == SlotState::InFlight implies queued_in(self.in_flight@, i) by {
                    assert(pre.slots@[i].state == SlotState::InFlight);
                }
                assert forall|i: int|
                    0 <= i < self.slots@.len() && (#[trigger] self.slots@[i]).state
                        == SlotState::Completed implies queued_in(self.ready@, i) by {
                    if i == idx as int {
                        assert(self.slots@[i].state == SlotState::Resolved);
                    }
                    assert(pre.slots@[i].state == SlotState::Completed);
                    let j = choose|j: int| 0 <= j < pre_ready.len() && pre_ready[j] as int == i;
                    assert(pre_ready[j] != pre_ready[pre_ready.len() - 1]);
                    assert(j != pre_ready.len() - 1);
                    assert(self.ready@[j] as int == i);
                }
            }
        }
        proof {
            assert(self.ready@ =~= Seq::<usize>::empty());
        }
        self.pending = self.pending - n;
        n
    }

    /// Hands slot `i`'s result out and spends the slot.
    fn consume(&mut self, i: usize) -> (r: PollOutcome)
        requires
            old(self).wf(),
            i < old(self).num_slots(),
            old(self).slot_state(i as int) == SlotState::Resolved,
        ensures
            final(self).wf(),
            final(self).db_view() == old(self).db_view(),
            final(self).depth() == old(self).depth(),
            final(self).num_slots() == old(self).num_slots(),
            final(self).in_flight_count() == old(self).in_flight_count(),
            final(self).ready_count() == old(self).ready_count(),
            final(self).pending_spec() == old(self).pending_spec(),
            forall|j: int|
                0 <= j < old(self).num_slots() ==> final(self).slot_value(j) == old(self).slot_value(j) && final(self).slot_status(j) == old(self).slot_status(j),
            forall|j: int|
                0 <= j < old(self).num_slots() && j != i as int ==> final(self).slot_state(j)
                    == old(self).slot_state(j),
            final(self).slot_state(i as int) == SlotState::Consumed,
            (r matches PollOutcome::Ready(v, s) && v@ == old(self).slot_value(i as int) && s
                == old(self).slot_status(i as int)),
    {
        let value = self.slots[i].value.clone();
        let status = self.slots[i].status;
        self.slots[i].state = SlotState::Consumed;
        proof {
            assert forall|j: int|
                0 <= j < self.in_flight@.len() implies (#[trigger] self.in_flight@[j])
                    < self.slots@.len() && self.slots@[self.in_flight@[j] as int].state
                    == SlotState::InFlight by {
                assert(old(self).slots@[self.in_flight@[j] as int].state == SlotState::InFlight);
                assert(self.in_flight@[j] as int != i as int);
            }
            assert forall|j: int|
                0 <= j < self.ready@.len() implies (#[trigger] self.ready@[j]) < self.slots@.len()
                    && self.slots@[self.ready@[j] as int].state == SlotState::Completed by {
                assert(old(self).slots@[self.ready@[j] as int].state == SlotState::Completed);
                assert(self.ready@[j] as int != i as int);
            }
            assert forall|j: int|
                0 <= j < self.slots@.len() && (#[trigger] self.slots@[j]).state
                    == SlotState::InFlight implies queued_in(self.in_flight@, j) by {
                assert(old(self).slots@[j].state == SlotState::InFlight);
            }
            assert forall|j: int|
                0 <= j < self.slots@.len() && (#[trigger] self.slots@[j]).state
                    == SlotState::Completed implies queued_in(self.ready@, j) by {
                assert(old(self).slots@[j].state == SlotState::Completed);
            }
        }
        PollOutcome::Ready(value, status)
    }

    /// One poll of `h`, the future adapter's decision step. When nothing
    /// is pending on the reader, the slot is already resolved and its
    /// result is handed out. Otherwise, when completions are ready, they
    /// are all reaped, always more than zero of them, and the handle's
    /// own slot is consumed when the reap resolved it; a poll of one
    /// handle may thereby resolve the slots of others. When nothing is
    /// ready the poll reports pending and changes nothing; re-polling is
    /// the caller's responsibility. A consumed or foreign handle is
    /// reported as misuse and changes nothing.
    pub fn poll_read(&mut self, h: &AsyncOperationHandle) -> (r: PollOutcome)
        requires
            old(self).wf(),
        ensures
            final(self).wf(),
            final(self).db_view() == old(self).db_view(),
            final(self).depth() == old(self).depth(),
            final(self).num_slots() == old(self).num_slots(),
            forall|j: int|
                0 <= j < old(self).num_slots() ==> final(self).slot_value(j) == old(self).slot_value(j) && final(self).slot_status(j) == old(self).slot_status(j),
            !old(self).valid_handle(*h) || old(self).slot_state(h.slot_index())
                == SlotState::Consumed ==> (r matches PollOutcome::Misuse) && *final(self) == *old(self),
            old(self).valid_handle(*h) && old(self).slot_state(h.slot_index())
                != SlotState::Consumed && old(self).pending_spec() == 0 ==> (
            r matches PollOutcome::Ready(v, s) && v@ == old(self).slot_value(h.slot_index()) && s
                == old(self).slot_status(h.slot_index())) && final(self).slot_state(
                h.slot_index(),
            ) == SlotState::Consumed && final(self).pending_spec() == 0 && (forall|j: int|
                0 <= j < old(self).num_slots() && j != h.slot_index() ==> final(self).slot_state(j)
                    == old(self).slot_state(j)),
            old(self).valid_handle(*h) && old(self).slot_state(h.slot_index())
                != SlotState::Consumed && old(self).pending_spec() > 0 && old(self).ready_count()
                == 0 ==> (r matches PollOutcome::Pending) && *final(self) == *old(self),
            old(self).valid_handle(*h) && old(self).slot_state(h.slot_index())
                != SlotState::Consumed && old(self).pending_spec() > 0 && old(self).ready_count()
                > 0 ==> final(self).ready_count() == 0 && final(self).in_flight_count() == old(self).in_flight_count() && final(self).pending_spec() as int == old(self).pending_spec()
                - old(self).ready_count(),
            old(self).valid_handle(*h) && old(self).slot_state(h.slot_index())
                != SlotState::Consumed && old(self).pending_spec() > 0 && old(self).ready_count()
                > 0 && (old(self).slot_state(h.slot_index()) == SlotState::Completed || old(self).slot_state(h.slot_index()) == SlotState::Resolved) ==> (
            r matches PollOutcome::Ready(v, s) && v@ == old(self).slot_value(h.slot_index()) && s
                == old(self).slot_status(h.slot_index())) && final(self).slot_state(
                h.slot_index(),
            ) == SlotState::Consumed,
            old(self).valid_handle(*h) && old(self).slot_state(h.slot_index())
                != SlotState::Consumed && old(self).pending_spec() > 0 && old(self).ready_count()
                > 0 && old(self).slot_state(h.slot_index()) == SlotState::InFlight ==> (r matches
                PollOutcome::Pending) && final(self).slot_state(h.slot_index())
                == SlotState::InFlight,
            old(self).valid_handle(*h) && old(self).slot_state(h.slot_index())
                != SlotState::Consumed && old(self).pending_spec() > 0 && old(self).ready_count()
                > 0 ==> (forall|j: int|
                0 <= j < old(self).num_slots() && j != h.slot_index() ==> final(self).slot_state(j)
                    == (if old(self).slot_state(j) == SlotState::Completed {
                    SlotState::Resolved
                } else {
                    old(self).slot_state(j)
                })),
    {
        if h.slot >= self.slots.len() {
            return PollOutcome::Misuse;
        }
        if self.slots[h.slot].state == SlotState::Consumed {
            return PollOutcome::Misuse;
        }
        if self.pending_count() == 0 {
            proof {
                law_no_pending_all_resolved(self, h.slot as int);
            }
            return self.consume(h.slot);
        }
        if self.peek_completions() {
            let n = self.reap_completions();
            assert(n > 0);
            if self.slots[h.slot].state == SlotState::Resolved {
                return self.consume(h.slot);
            }
            return PollOutcome::Pending;
        }
        PollOutcome::Pending
    }
}

/// When nothing is pending on a reader, no operation can be starved: every
/// slot not yet consumed is already resolved, so its poll hands the result
/// out at once. This is what lets a caller drive any number of submitted
/// reads to completion by re-polling.
pub proof fn law_no_pending_all_resolved(r: &AsyncReader, i: int)
    requires
        r.wf(),
        r.pending_spec() == 0,
        0 <= i < r.num_slots(),
        r.slot_state(i) != SlotState::Consumed,
    ensures
        r.slot_state(i) == SlotState::Resolved,
{
    if r.slot_state(i) == SlotState::InFlight {
        assert(queued_in(r.in_flight@, i));
        let j = choose|j: int| 0 <= j < r.in_flight@.len() && r.in_flight@[j] as int == i;
        assert(r.in_flight@.len() > 0);
    }
    if r.slot_state(i) == SlotState::Completed {
        assert(queued_in(r.ready@, i));
        let j = choose|j: int| 0 <= j < r.ready@.len() && r.ready@[j] as int == i;
        assert(r.ready@.len() > 0);
    }
}

/// A slot still counted in flight has its entry in the submission
/// queue, and a slot counted completed has its entry in the completion
/// queue. So once the submission queue is empty no slot is in flight,
/// and once the completion queue is drained no slot awaits a reap.
pub proof fn law_states_match_queues(r: &AsyncReader, i: int)
    requires
        r.wf(),
        0 <= i < r.num_slots(),
    ensures
        r.slot_state(i) == SlotState::InFlight ==> r.in_flight_count() > 0,
        r.slot_state(i) == SlotState::Completed ==> r.ready_count() > 0,
{
    if r.slot_state(i) == SlotState::InFlight {
        assert(queued_in(r.in_flight@, i));
        let j = choose|j: int| 0 <= j < r.in_flight@.len() && r.in_flight@[j] as int == i;
        assert(r.in_flight@.len() > 0);
    }
    if r.slot_state(i) == SlotState::Completed {
        assert(queued_in(r.ready@, i));
        let j = choose|j: int| 0 <= j < r.ready@.len() && r.ready@[j] as int == i;
        assert(r.ready@.len() > 0);
    }
}

/// The pending counter counts exactly the submitted-but-unreaped
/// operations: those still in flight plus those delivered and waiting in
/// the completion queue. Reaping every completion after every delivery
/// therefore drives it to zero.
pub proof fn law_pending_counts_queues(r: &AsyncReader)
    requires
        r.wf(),
    ensures
        r.pending_spec() as int == r.in_flight_count() + r.ready_count(),
{
}

/// Reaping immediately after a successful peek returns a count above
/// zero: peek reports whether the completion queue is non-empty, and reap
/// returns exactly the number of entries it drains from it.
pub proof fn law_reap_after_peek(r: &AsyncReader, peeked: bool, reaped: u32)
    requires
        r.wf(),
        peeked == (r.ready_count() > 0),
        reaped as int == r.ready_count(),
        peeked,
    ensures
        reaped > 0,
{
}

} // verus!
