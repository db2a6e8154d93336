//! Transaction nesting: the depth bookkeeping behind the boundary events.
//!
//! Depth zero means that no transaction is open. Opening one raises the
//! depth by one and is reported at the new depth; committing or rolling back
//! the innermost one is reported at the current depth and lowers it by one.

use vstd::prelude::*;

use crate::event::{EventView, LifecycleEvent};

verus! {

/// A request to open or to close a transaction.
#[derive(Clone, Copy, Debug, PartialEq, Eq, Structural)]
pub enum Demarcation {
    /// Open a transaction inside the current one.
    Begin,
    /// Commit the innermost transaction.
    Commit,
    /// Roll the innermost transaction back.
    Rollback,
}

/// Whether `request` can be served at `depth`: there is room to nest
/// further, or there is a transaction to close.
pub open spec fn accepts(depth: nat, request: Demarcation) -> bool {
    match request {
        Demarcation::Begin => depth < u32::MAX,
        Demarcation::Commit => depth >= 1,
        Demarcation::Rollback => depth >= 1,
    }
}

/// The depth after `request` was served at `depth`.
pub open spec fn depth_after(depth: nat, request: Demarcation) -> nat {
    match request {
        Demarcation::Begin => depth + 1,
        Demarcation::Commit => (depth - 1) as nat,
        Demarcation::Rollback => (depth - 1) as nat,
    }
}

/// The boundary event of `request` served at `depth`.
pub open spec fn boundary_event(depth: nat, request: Demarcation) -> EventView {
    match request {
        Demarcation::Begin => EventView::TxBegin { depth: depth + 1 },
        Demarcation::Commit => EventView::TxCommit { depth },
        Demarcation::Rollback => EventView::TxRollback { depth },
    }
}

/// The depth after a run of requests that starts at `depth`. A request that
/// cannot be served leaves the depth as it is.
pub open spec fn depth_after_all(depth: nat, requests: Seq<Demarcation>) -> nat
    decreases requests.len(),
{
    if requests.len() == 0 {
        depth
    } else if accepts(depth, requests[0]) {
        depth_after_all(depth_after(depth, requests[0]), requests.drop_first())
    } else {
        depth_after_all(depth, requests.drop_first())
    }
}

/// The boundary events of a run of requests that starts at `depth`, in
/// order. A request that cannot be served has no event.
pub open spec fn boundary_trace(depth: nat, requests: Seq<Demarcation>) -> Seq<EventView>
    decreases requests.len(),
{
    if requests.len() == 0 {
        Seq::empty()
    } else if accepts(depth, requests[0]) {
        seq![boundary_event(depth, requests[0])] + boundary_trace(
            depth_after(depth, requests[0]),
            requests.drop_first(),
        )
    } else {
        boundary_trace(depth, requests.drop_first())
    }
}

/// Whether `event` fits a connection whose transaction depth is `depth`: an
/// opening names the next level, a closing names the current level, which is
/// at least one, and any other event fits.
pub open spec fn fits(depth: nat, event: EventView) -> bool {
    match event {
        EventView::TxBegin { depth: level } => level == depth + 1,
        EventView::TxCommit { depth: level } => level == depth && depth >= 1,
        EventView::TxRollback { depth: level } => level == depth && depth >= 1,
        _ => true,
    }
}

/// The depth after `event`, which fits `depth`.
pub open spec fn depth_past(depth: nat, event: EventView) -> nat {
    match event {
        EventView::TxBegin { .. } => depth + 1,
        EventView::TxCommit { .. } => (depth - 1) as nat,
        EventView::TxRollback { .. } => (depth - 1) as nat,
        _ => depth,
    }
}

/// Whether the boundary events of `trace` keep a stack discipline from
/// `depth` on: levels rise by exactly one with each opening and fall by
/// exactly one with each closing of the innermost transaction, never below
/// zero and never skipping a level.
pub open spec fn stack_discipline(depth: nat, trace: Seq<EventView>) -> bool
    decreases trace.len(),
{
    if trace.len() == 0 {
        true
    } else {
        fits(depth, trace[0]) && stack_discipline(depth_past(depth, trace[0]), trace.drop_first())
    }
}

/// The depth after a trace that keeps the stack discipline from `depth` on.
pub open spec fn depth_past_all(depth: nat, trace: Seq<EventView>) -> nat
    decreases trace.len(),
{
    if trace.len() == 0 {
        depth
    } else {
        depth_past_all(depth_past(depth, trace[0]), trace.drop_first())
    }
}

/// The events of a list, in order.
pub open spec fn events_view(events: Seq<LifecycleEvent>) -> Seq<EventView> {
    events.map_values(|event: LifecycleEvent| event@)
}

/// The nesting depth of the transactions of one connection.
#[derive(Debug)]
pub struct TransactionDepth {
    depth: u32,
}

impl View for TransactionDepth {
    type V = nat;

    closed spec fn view(&self) -> nat {
        self.depth as nat
    }
}

impl TransactionDepth {
    /// The bookkeeping of a connection without an open transaction.
    pub fn new() -> (state: Self)
        ensures
            state@ == 0,
    {
        TransactionDepth { depth: 0 }
    }

    /// The number of open transactions.
    pub fn depth(&self) -> (depth: u32)
        ensures
            depth == self@,
    {
        self.depth
    }

    /// Serves `request`: returns its boundary event and moves to the depth
    /// after it. A request that cannot be served (closing without an open
    /// transaction, nesting beyond the largest depth) has no event and
    /// changes nothing.
    pub fn demarcate(&mut self, request: Demarcation) -> (event: Option<LifecycleEvent>)
        ensures
            accepts(old(self)@, request) ==> {
                &&& event matches Some(e)
                &&& e@ == boundary_event(old(self)@, request)
                &&& e@.well_formed()
                &&& final(self)@ == depth_after(old(self)@, request)
            },
            !accepts(old(self)@, request) ==> event is None && final(self)@ == old(self)@,
        no_unwind
    {
        match request {
            Demarcation::Begin => {
                if self.depth < u32::MAX {
                    self.depth = self.depth + 1;
                    Some(LifecycleEvent::TxBegin { depth: self.depth })
                } else {
                    None
                }
            },
            Demarcation::Commit => {
                if self.depth >= 1 {
                    let level = self.depth;
                    self.depth = self.depth - 1;
                    Some(LifecycleEvent::TxCommit { depth: level })
                } else {
                    None
                }
            },
            Demarcation::Rollback => {
                if self.depth >= 1 {
                    let level = self.depth;
                    self.depth = self.depth - 1;
                    Some(LifecycleEvent::TxRollback { depth: level })
                } else {
                    None
                }
            },
        }
    }

    /// Serves a run of requests in order and returns the boundary events of
    /// those that could be served.
    pub fn demarcate_all(&mut self, requests: &Vec<Demarcation>) -> (events: Vec<LifecycleEvent>)
        ensures
            events_view(events@) == boundary_trace(old(self)@, requests@),
            final(self)@ == depth_after_all(old(self)@, requests@),
            stack_discipline(old(self)@, events_view(events@)),
    {
        let mut events: Vec<LifecycleEvent> = Vec::new();
        let mut i: usize = 0;
        proof {
            assert(requests@.skip(0) =~= requests@);
            assert(events_view(events@) + boundary_trace(self@, requests@) =~= boundary_trace(
                self@,
                requests@,
            ));
        }
        while i < requests.len()
            invariant
                0 <= i <= requests.len(),
                boundary_trace(old(self)@, requests@) == events_view(events@) + boundary_trace(
                    self@,
                    requests@.skip(i as int),
                ),
                depth_after_all(old(self)@, requests@) == depth_after_all(
                    self@,
                    requests@.skip(i as int),
                ),
            decreases requests.len() - i,
        {
            let ghost before = self@;
            let ghost rest = requests@.skip(i as int);
            let ghost done = events_view(events@);
            assert(rest[0] == requests@[i as int]);
            assert(rest.drop_first() =~= requests@.skip(i as int + 1));
            match self.demarcate(requests[i]) {
                Some(event) => {
                    events.push(event);
                    assert(events_view(events@) =~= done + seq![boundary_event(before, rest[0])]);
                    assert(done + (seq![boundary_event(before, rest[0])] + boundary_trace(
                        self@,
                        rest.drop_first(),
                    )) =~= events_view(events@) + boundary_trace(self@, rest.drop_first()));
                },
                None => {},
            }
            i += 1;
        }
        proof {
            assert(requests@.skip(i as int) =~= Seq::empty());
            assert(events_view(events@) =~= boundary_trace(old(self)@, requests@));
            law_depth_is_a_stack(old(self)@, requests@);
        }
        events
    }

    /// Follows an event that the connection reports: if it fits the current
    /// depth, moves to the depth after it and returns `true`; otherwise
    /// changes nothing and returns `false`.
    pub fn follow(&mut self, event: &LifecycleEvent) -> (fitting: bool)
        ensures
            fitting == fits(old(self)@, event@),
            fitting ==> final(self)@ == depth_past(old(self)@, event@),
            !fitting ==> final(self)@ == old(self)@,
        no_unwind
    {
        match event {
            LifecycleEvent::TxBegin { depth } => {
                if self.depth < u32::MAX && *depth == self.depth + 1 {
                    self.depth = *depth;
                    true
                } else {
                    false
                }
            },
            LifecycleEvent::TxCommit { depth } => {
                if self.depth >= 1 && *depth == self.depth {
                    self.depth = self.depth - 1;
                    true
                } else {
                    false
                }
            },
            LifecycleEvent::TxRollback { depth } => {
                if self.depth >= 1 && *depth == self.depth {
                    self.depth = self.depth - 1;
                    true
                } else {
                    false
                }
            },
            _ => true,
        }
    }
}

/// Whether the boundary events of `events` keep a stack discipline from a
/// connection without an open transaction on.
pub fn keeps_stack_discipline(events: &Vec<LifecycleEvent>) -> (kept: bool)
    ensures
        kept == stack_discipline(0, events_view(events@)),
{
    let mut state = TransactionDepth::new();
    let mut i: usize = 0;
    assert(events_view(events@).skip(0) =~= events_view(events@));
    while i < events.len()
        invariant
            0 <= i <= events.len(),
            stack_discipline(0, events_view(events@)) == stack_discipline(
                state@,
                events_view(events@).skip(i as int),
            ),
        decreases events.len() - i,
    {
        let ghost rest = events_view(events@).skip(i as int);
        assert(rest[0] == events@[i as int]@);
        assert(rest.drop_first() =~= events_view(events@).skip(i as int + 1));
        if !state.follow(&events[i]) {
            return false;
        }
        i += 1;
    }
    assert(events_view(events@).skip(i as int) =~= Seq::empty());
    true
}

/// Transaction depth is a stack: whatever requests arrive in whatever
/// order, the boundary events of those that are served open at exactly one
/// level above the current one and close exactly the innermost open level,
/// so that depths never fall below zero and never skip a level.
pub proof fn law_depth_is_a_stack(depth: nat, requests: Seq<Demarcation>)
    ensures
        stack_discipline(depth, boundary_trace(depth, requests)),
        depth_past_all(depth, boundary_trace(depth, requests)) == depth_after_all(depth, requests),
    decreases requests.len(),
{
    if requests.len() > 0 {
        let rest = requests.drop_first();
        if accepts(depth, requests[0]) {
            let next = depth_after(depth, requests[0]);
            law_depth_is_a_stack(next, rest);
            let trace = boundary_trace(depth, requests);
            assert(trace[0] == boundary_event(depth, requests[0]));
            assert(trace.drop_first() =~= boundary_trace(next, rest));
        } else {
            law_depth_is_a_stack(depth, rest);
        }
    }
}

/// Every boundary event is well formed: it names a level of at least one,
/// and the depth it leaves behind differs from the depth before by exactly
/// one.
pub proof fn law_boundary_moves_one_level(depth: nat, request: Demarcation)
    requires
        accepts(depth, request),
    ensures
        boundary_event(depth, request).well_formed(),
        fits(depth, boundary_event(depth, request)),
        depth_past(depth, boundary_event(depth, request)) == depth_after(depth, request),
        request == Demarcation::Begin ==> depth_after(depth, request) == depth + 1,
        request != Demarcation::Begin ==> depth_after(depth, request) + 1 == depth,
{
}

} // verus!
