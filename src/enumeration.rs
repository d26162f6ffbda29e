//! Disk enumeration as a state machine. The machine decides; whoever runs it
//! performs each [`HostAction`] on the device-control interface and hands the
//! answer back as a [`HostEvent`].

use vstd::prelude::*;
use crate::error::ListError;
use crate::layout::{DiskHeader, RawPartitionRecord};
use crate::query::{
    capacity_after, fitting_answer, lemma_capacity_after_grows, next_query_step, query_step,
    ControlOutcome, OpenOutcome, QueryStep, INITIAL_CAPACITY, MAX_CAPACITY,
};
use crate::{enum_action, next_enum_action, normalized, probe_of_response, probe_response};
use crate::{DeviceProbe, EnumAction};

verus! {

/// What the machine waits for.
#[derive(Debug, PartialEq, Eq)]
pub enum Phase {
    /// The answer to opening the current index.
    Opening,
    /// The answer to a layout request with a buffer of this many bytes.
    Querying(usize),
    /// The release of the open device; what probing it found.
    Closing(Result<DeviceProbe, ListError>),
    /// Nothing: the enumeration is over.
    Finished,
}

/// The next call on the device-control interface.
#[derive(Debug, PartialEq, Eq)]
pub enum HostAction {
    /// Open the device with this index.
    Open(u32),
    /// Issue the layout request on the open device with a buffer of this many bytes.
    Request(usize),
    /// Release the open device.
    Close,
    /// The enumeration is over, with this result.
    Finish(Result<Vec<(DiskHeader, Vec<RawPartitionRecord>)>, ListError>),
}

/// The answer to the last action.
#[derive(Debug, PartialEq, Eq)]
pub enum HostEvent {
    /// What opening reported.
    Opened(OpenOutcome),
    /// What the layout request reported, and the buffer after the request.
    Answered(ControlOutcome, Vec<u8>),
    /// The device was released.
    Closed,
}

/// Enumeration of device indices `0..max_index`.
#[derive(Debug, PartialEq, Eq)]
pub struct Enumeration {
    pub max_index: u32,
    /// Index of the device being probed.
    pub index: u32,
    /// Layouts kept so far, in index order.
    pub layouts: Vec<(DiskHeader, Vec<RawPartitionRecord>)>,
    pub phase: Phase,
}

/// `n` is `s` in another phase: same index and layouts.
pub open spec fn same_progress(s: Enumeration, n: Enumeration) -> bool {
    &&& n.max_index == s.max_index
    &&& n.index == s.index
    &&& n.layouts@ == s.layouts@
}

/// `n` and `a` move on from `s`, with `layouts` kept: to the next index, or,
/// after the last one, to the end with `layouts` as result.
pub open spec fn moved_on(
    s: Enumeration,
    layouts: Seq<(DiskHeader, Vec<RawPartitionRecord>)>,
    n: Enumeration,
    a: HostAction,
) -> bool {
    if s.index + 1 >= s.max_index {
        &&& n.phase is Finished
        &&& a matches HostAction::Finish(Ok(v)) && v@ == layouts
    } else {
        &&& n.phase == Phase::Opening
        &&& n.max_index == s.max_index
        &&& n.index == s.index + 1
        &&& n.layouts@ == layouts
        &&& a == HostAction::Open((s.index + 1) as u32)
    }
}

/// What probing gives when a request succeeded with `k` valid bytes and left
/// `buffer` behind: the decoding of the buffer cut to `k` bytes.
pub open spec fn probe_after_success(
    buffer: Seq<u8>,
    k: usize,
    p: Result<DeviceProbe, ListError>,
) -> bool {
    exists|v: Seq<u8>|
        {
            &&& v.len() == k
            &&& k <= buffer.len() ==> v == buffer.subrange(0, k as int)
            &&& #[trigger] probe_of_response(v, p)
        }
}

/// One step of the machine from `s` on event `e` gives state `n` and action `a`.
/// - Opening: a missing device ends the enumeration with the layouts kept so
///   far; a refused one ends it with `Access`; an opened one is asked for its
///   layout with a buffer of `INITIAL_CAPACITY` bytes.
/// - Querying: the answer goes through `query_step`. A retry asks again with
///   the larger buffer; success or failure releases the device, success
///   carrying the decoded response and failure its error.
/// - Closing: a layout is kept, a device without one is skipped, and the
///   enumeration moves on; an error ends it.
pub open spec fn step_ok(s: Enumeration, e: HostEvent, n: Enumeration, a: HostAction) -> bool {
    match e {
        HostEvent::Opened(OpenOutcome::NotFound) => {
            &&& n.phase is Finished
            &&& a matches HostAction::Finish(Ok(v)) && v@ == s.layouts@
        },
        HostEvent::Opened(OpenOutcome::Denied(code)) => {
            &&& n.phase is Finished
            &&& a == HostAction::Finish(Err(ListError::Access(code)))
        },
        HostEvent::Opened(OpenOutcome::Opened) => {
            &&& same_progress(s, n)
            &&& n.phase == Phase::Querying(INITIAL_CAPACITY)
            &&& a == HostAction::Request(INITIAL_CAPACITY)
        },
        HostEvent::Answered(o, buffer) => {
            &&& same_progress(s, n)
            &&& match query_step(s.phase->Querying_0, o) {
                QueryStep::Retry(larger) => {
                    &&& n.phase == Phase::Querying(larger)
                    &&& a == HostAction::Request(larger)
                },
                QueryStep::Done(k) => {
                    &&& n.phase is Closing
                    &&& probe_after_success(buffer@, k, n.phase->Closing_0)
                    &&& a == HostAction::Close
                },
                QueryStep::Fail(err) => {
                    &&& n.phase == Phase::Closing(Err(err))
                    &&& a == HostAction::Close
                },
            }
        },
        HostEvent::Closed => match enum_action(s.phase->Closing_0) {
            EnumAction::Keep(h, kept) => moved_on(s, s.layouts@.push((h, kept)), n, a),
            EnumAction::Abort(err) => {
                &&& n.phase is Finished
                &&& a == HostAction::Finish(Err(err))
            },
            _ => moved_on(s, s.layouts@, n, a),
        },
    }
}

impl Enumeration {
    /// The machine's own invariant.
    pub open spec fn wf(&self) -> bool {
        &&& !(self.phase is Finished) ==> self.index < self.max_index
        &&& self.phase is Querying ==> INITIAL_CAPACITY <= self.phase->Querying_0 <= MAX_CAPACITY
        &&& self.phase matches Phase::Closing(Ok(DeviceProbe::Layout(h, kept))) ==> normalized(
            h,
            kept@,
        )
        &&& forall|i: int|
            0 <= i < self.layouts@.len() ==> normalized(
                (#[trigger] self.layouts@[i]).0,
                self.layouts@[i].1@,
            )
    }

    /// Whether `e` answers the action that led to the current phase.
    pub open spec fn expects(&self, e: HostEvent) -> bool {
        match self.phase {
            Phase::Opening => e is Opened,
            Phase::Querying(_) => e is Answered,
            Phase::Closing(_) => e is Closed,
            Phase::Finished => false,
        }
    }

    /// Starts enumerating indices `0..max_index`: opens index 0, or ends at
    /// once with no layouts when there is no index to try.
    pub fn start(max_index: u32) -> (r: (Enumeration, HostAction))
        ensures
            r.0.wf(),
            r.0.max_index == max_index,
            max_index == 0 ==> r.0.phase is Finished,
            max_index == 0 ==> (r.1 matches HostAction::Finish(Ok(v)) && v@.len() == 0),
            max_index > 0 ==> {
                &&& r.0.phase == Phase::Opening
                &&& r.0.index == 0
                &&& r.0.layouts@.len() == 0
                &&& r.1 == HostAction::Open(0)
            },
    {
        if max_index == 0 {
            (
                Enumeration { max_index, index: 0, layouts: Vec::new(), phase: Phase::Finished },
                HostAction::Finish(Ok(Vec::new())),
            )
        } else {
            (
                Enumeration { max_index, index: 0, layouts: Vec::new(), phase: Phase::Opening },
                HostAction::Open(0),
            )
        }
    }

    /// Moves on from index `index` with `layouts` kept.
    fn move_on(
        max_index: u32,
        index: u32,
        layouts: Vec<(DiskHeader, Vec<RawPartitionRecord>)>,
    ) -> (r: (Enumeration, HostAction))
        requires
            index < max_index,
            forall|i: int|
                0 <= i < layouts@.len() ==> normalized(
                    (#[trigger] layouts@[i]).0,
                    layouts@[i].1@,
                ),
        ensures
            r.0.wf(),
            r.0.max_index == max_index,
            moved_on(
                Enumeration { max_index, index, layouts, phase: Phase::Finished },
                layouts@,
                r.0,
                r.1,
            ),
    {
        if index + 1 >= max_index {
            (
                Enumeration { max_index, index, layouts: Vec::new(), phase: Phase::Finished },
                HostAction::Finish(Ok(layouts)),
            )
        } else {
            (
                Enumeration { max_index, index: index + 1, layouts, phase: Phase::Opening },
                HostAction::Open(index + 1),
            )
        }
    }

    /// Takes the answer to the last action and decides the next one.
    pub fn step(self, e: HostEvent) -> (r: (Enumeration, HostAction))
        requires
            self.wf(),
            self.expects(e),
        ensures
            r.0.wf(),
            r.0.max_index == self.max_index,
            step_ok(self, e, r.0, r.1),
    {
        let ghost s = self;
        let Enumeration { max_index, index, layouts, phase } = self;
        match e {
            HostEvent::Opened(o) => match o {
                OpenOutcome::NotFound => (
                    Enumeration { max_index, index, layouts: Vec::new(), phase: Phase::Finished },
                    HostAction::Finish(Ok(layouts)),
                ),
                OpenOutcome::Denied(code) => (
                    Enumeration { max_index, index, layouts, phase: Phase::Finished },
                    HostAction::Finish(Err(ListError::Access(code))),
                ),
                OpenOutcome::Opened => (
                    Enumeration {
                        max_index,
                        index,
                        layouts,
                        phase: Phase::Querying(INITIAL_CAPACITY),
                    },
                    HostAction::Request(INITIAL_CAPACITY),
                ),
            },
            HostEvent::Answered(o, buffer) => {
                let capacity = match phase {
                    Phase::Querying(c) => c,
                    _ => INITIAL_CAPACITY,
                };
                match next_query_step(capacity, o) {
                    QueryStep::Retry(larger) => (
                        Enumeration { max_index, index, layouts, phase: Phase::Querying(larger) },
                        HostAction::Request(larger),
                    ),
                    QueryStep::Done(k) => {
                        let mut bytes = buffer;
                        bytes.resize(k, 0u8);
                        let p = probe_response(&bytes);
                        proof {
                            assert(probe_of_response(bytes@, p));
                        }
                        (
                            Enumeration { max_index, index, layouts, phase: Phase::Closing(p) },
                            HostAction::Close,
                        )
                    },
                    QueryStep::Fail(err) => (
                        Enumeration { max_index, index, layouts, phase: Phase::Closing(Err(err)) },
                        HostAction::Close,
                    ),
                }
            },
            HostEvent::Closed => {
                let p = match phase {
                    Phase::Closing(p) => p,
                    _ => Ok(DeviceProbe::NoLayout),
                };
                match next_enum_action(p) {
                    EnumAction::Keep(h, kept) => {
                        let mut layouts = layouts;
                        proof {
                            assert(normalized(h, kept@));
                        }
                        layouts.push((h, kept));
                        Enumeration::move_on(max_index, index, layouts)
                    },
                    EnumAction::Abort(err) => (
                        Enumeration { max_index, index, layouts, phase: Phase::Finished },
                        HostAction::Finish(Err(err)),
                    ),
                    _ => Enumeration::move_on(max_index, index, layouts),
                }
            },
        }
    }
}

/// `ss` are the states, and `acts` the actions, of consecutive steps that
/// answer layout requests: state `i` answered with `outcomes[i]`, the buffer
/// being `bufs[i]`, gives state `i + 1` and action `acts[i]`. Every action but
/// the last asks for another request.
pub open spec fn query_run(
    ss: Seq<Enumeration>,
    outcomes: Seq<ControlOutcome>,
    bufs: Seq<Vec<u8>>,
    acts: Seq<HostAction>,
) -> bool {
    &&& outcomes.len() >= 1
    &&& ss.len() == outcomes.len() + 1
    &&& bufs.len() == outcomes.len()
    &&& acts.len() == outcomes.len()
    &&& forall|i: int|
        0 <= i < outcomes.len() ==> #[trigger] step_ok(
            ss[i],
            HostEvent::Answered(outcomes[i], bufs[i]),
            ss[i + 1],
            acts[i],
        )
    &&& forall|i: int| 0 <= i < outcomes.len() - 1 ==> (#[trigger] acts[i]) is Request
}

/// The device answers "too small" exactly while the buffer is shorter than
/// its `size`-byte response.
pub open spec fn answers_fitting(ss: Seq<Enumeration>, outcomes: Seq<ControlOutcome>, size: u32) -> bool {
    forall|i: int|
        0 <= i < outcomes.len() ==> #[trigger] outcomes[i] == fitting_answer(
            ss[i].phase->Querying_0,
            size,
        )
}

proof fn lemma_query_phase(
    ss: Seq<Enumeration>,
    outcomes: Seq<ControlOutcome>,
    bufs: Seq<Vec<u8>>,
    acts: Seq<HostAction>,
    size: u32,
    k: nat,
    i: int,
)
    requires
        query_run(ss, outcomes, bufs, acts),
        answers_fitting(ss, outcomes, size),
        ss[0].phase == Phase::Querying(INITIAL_CAPACITY),
        size <= 0x8000_0000,
        capacity_after(k) >= size,
        k == 0 || capacity_after((k - 1) as nat) < size,
        0 <= i < outcomes.len(),
    ensures
        capacity_after(i as nat) <= MAX_CAPACITY,
        ss[i].phase == Phase::Querying(capacity_after(i as nat) as usize),
        i <= k,
        i > 0 ==> acts[i - 1] == HostAction::Request(capacity_after(i as nat) as usize),
    decreases i,
{
    if i > 0 {
        let j = i - 1;
        lemma_query_phase(ss, outcomes, bufs, acts, size, k, j);
        assert(step_ok(ss[j], HostEvent::Answered(outcomes[j], bufs[j]), ss[j + 1], acts[j]));
        assert(acts[j] is Request);
        assert(outcomes[j] == fitting_answer(ss[j].phase->Querying_0, size));
        if j >= k {
            lemma_capacity_after_grows(k, j as nat);
        }
    }
}

/// Against a device that answers "too small" exactly while the buffer is
/// shorter than its `size`-byte response, a query asks for buffers of
/// `capacity_after(0)`, `capacity_after(1)`, ... bytes and makes exactly
/// `k + 1` requests, `k` being the number of doublings that bring the first
/// buffer to at least `size` bytes; it then releases the device with the
/// response cut to `size` bytes, decoded. Sizes above the largest buffer that
/// doubling reaches within a request's 32-bit length are left out.
pub proof fn lemma_query_doublings(
    ss: Seq<Enumeration>,
    outcomes: Seq<ControlOutcome>,
    bufs: Seq<Vec<u8>>,
    acts: Seq<HostAction>,
    size: u32,
    k: nat,
)
    requires
        query_run(ss, outcomes, bufs, acts),
        answers_fitting(ss, outcomes, size),
        ss[0].phase == Phase::Querying(INITIAL_CAPACITY),
        acts.last() == HostAction::Close,
        size <= 0x8000_0000,
        capacity_after(k) >= size,
        k == 0 || capacity_after((k - 1) as nat) < size,
    ensures
        outcomes.len() == k + 1,
        forall|i: int|
            0 <= i <= k ==> (#[trigger] ss[i]).phase == Phase::Querying(
                capacity_after(i as nat) as usize,
            ),
        forall|i: int|
            0 < i <= k ==> #[trigger] acts[i - 1] == HostAction::Request(
                capacity_after(i as nat) as usize,
            ),
        ss[(k + 1) as int].phase is Closing,
        probe_after_success(bufs[k as int]@, size as usize, ss[(k + 1) as int].phase->Closing_0),
{
    let last = outcomes.len() - 1;
    lemma_query_phase(ss, outcomes, bufs, acts, size, k, last);
    assert(step_ok(ss[last], HostEvent::Answered(outcomes[last], bufs[last]), ss[last + 1], acts[last]));
    assert(outcomes[last] == fitting_answer(ss[last].phase->Querying_0, size));
    if last < k {
        lemma_capacity_after_grows(last as nat, (k - 1) as nat);
    }
    assert forall|i: int| 0 <= i <= k implies (#[trigger] ss[i]).phase == Phase::Querying(
        capacity_after(i as nat) as usize,
    ) by {
        lemma_query_phase(ss, outcomes, bufs, acts, size, k, i);
    }
    assert forall|i: int| 0 < i <= k implies #[trigger] acts[i - 1] == HostAction::Request(
        capacity_after(i as nat) as usize,
    ) by {
        lemma_query_phase(ss, outcomes, bufs, acts, size, k, i);
    }
}

} // verus!
