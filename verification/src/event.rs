//! The closed set of connection lifecycle events.

use vstd::prelude::*;
use vstd::string::StringExecFns;

verus! {

/// One classified occurrence in the life of a connection.
///
/// `target` is an opaque connection locator, `statement` and `sql` are
/// already rendered statement text, an `error` is the display form of the
/// failure, and `depth` is the nesting level of a transaction, counted from
/// one for the outermost.
#[derive(Clone, Debug, PartialEq, Eq)]
pub enum LifecycleEvent {
    /// A connection is about to be established.
    ConnectStart { target: String },
    /// Establishing a connection has ended.
    ConnectFinish { target: String, error: Option<String> },
    /// A statement is about to be executed.
    QueryStart { statement: String },
    /// Executing a statement has ended.
    QueryFinish { statement: String, error: Option<String> },
    /// A statement was registered in the prepared statement cache.
    CacheStatement { sql: String },
    /// A transaction is opened at `depth`.
    TxBegin { depth: u32 },
    /// The transaction at `depth` is committed.
    TxCommit { depth: u32 },
    /// The transaction at `depth` is rolled back.
    TxRollback { depth: u32 },
    /// An occurrence that is not one of the above, in its debug form.
    Unknown { raw: String },
}

/// The mathematical value of a [`LifecycleEvent`].
pub enum EventView {
    ConnectStart { target: Seq<char> },
    ConnectFinish { target: Seq<char>, error: Option<Seq<char>> },
    QueryStart { statement: Seq<char> },
    QueryFinish { statement: Seq<char>, error: Option<Seq<char>> },
    CacheStatement { sql: Seq<char> },
    TxBegin { depth: nat },
    TxCommit { depth: nat },
    TxRollback { depth: nat },
    Unknown { raw: Seq<char> },
}

/// The value of an optional text.
pub open spec fn text_view(text: Option<String>) -> Option<Seq<char>> {
    match text {
        Some(t) => Some(t@),
        None => None,
    }
}

/// The value of an optional borrowed text.
pub open spec fn failure_view(failure: Option<&str>) -> Option<Seq<char>> {
    match failure {
        Some(text) => Some(text@),
        None => None,
    }
}

impl View for LifecycleEvent {
    type V = EventView;

    open spec fn view(&self) -> EventView {
        match self {
            LifecycleEvent::ConnectStart { target } => EventView::ConnectStart { target: target@ },
            LifecycleEvent::ConnectFinish { target, error } => EventView::ConnectFinish {
                target: target@,
                error: text_view(*error),
            },
            LifecycleEvent::QueryStart { statement } => EventView::QueryStart {
                statement: statement@,
            },
            LifecycleEvent::QueryFinish { statement, error } => EventView::QueryFinish {
                statement: statement@,
                error: text_view(*error),
            },
            LifecycleEvent::CacheStatement { sql } => EventView::CacheStatement { sql: sql@ },
            LifecycleEvent::TxBegin { depth } => EventView::TxBegin { depth: *depth as nat },
            LifecycleEvent::TxCommit { depth } => EventView::TxCommit { depth: *depth as nat },
            LifecycleEvent::TxRollback { depth } => EventView::TxRollback { depth: *depth as nat },
            LifecycleEvent::Unknown { raw } => EventView::Unknown { raw: raw@ },
        }
    }
}

impl EventView {
    /// The failure that the event reports, if it reports one.
    pub open spec fn error(self) -> Option<Seq<char>> {
        match self {
            EventView::ConnectFinish { error, .. } => error,
            EventView::QueryFinish { error, .. } => error,
            _ => None,
        }
    }

    /// Whether the event opens the operation that `finish` closes: the same
    /// kind of operation on the same locator or statement.
    pub open spec fn opens(self, finish: EventView) -> bool {
        match (self, finish) {
            (EventView::ConnectStart { target }, EventView::ConnectFinish { target: closed, .. }) => {
                target == closed
            },
            (
                EventView::QueryStart { statement },
                EventView::QueryFinish { statement: closed, .. },
            ) => statement == closed,
            _ => false,
        }
    }

    /// A transaction boundary names a nesting level of at least one; every
    /// other event is well formed as it stands.
    pub open spec fn well_formed(self) -> bool {
        match self {
            EventView::TxBegin { depth } => depth >= 1,
            EventView::TxCommit { depth } => depth >= 1,
            EventView::TxRollback { depth } => depth >= 1,
            _ => true,
        }
    }
}

impl LifecycleEvent {
    /// The event that opens the establishment of a connection to `target`.
    pub fn connect_start(target: &str) -> (event: LifecycleEvent)
        ensures
            event@ == (EventView::ConnectStart { target: target@ }),
    {
        LifecycleEvent::ConnectStart { target: String::from_str(target) }
    }

    /// The event that closes the establishment of a connection to `target`
    /// with the given outcome: `None` for success, the failure's display form
    /// otherwise.
    pub fn connect_finish(target: &str, failure: Option<&str>) -> (event: LifecycleEvent)
        ensures
            event@ == (EventView::ConnectFinish { target: target@, error: failure_view(failure) }),
            event@.error() is Some <==> failure is Some,
            (EventView::ConnectStart { target: target@ }).opens(event@),
    {
        let error = match failure {
            Some(e) => Some(String::from_str(e)),
            None => None,
        };
        LifecycleEvent::ConnectFinish { target: String::from_str(target), error }
    }

    /// The event that opens the execution of `statement`.
    pub fn query_start(statement: &str) -> (event: LifecycleEvent)
        ensures
            event@ == (EventView::QueryStart { statement: statement@ }),
    {
        LifecycleEvent::QueryStart { statement: String::from_str(statement) }
    }

    /// The event that closes the execution of `statement` with the given
    /// outcome: `None` for success, the failure's display form otherwise.
    pub fn query_finish(statement: &str, failure: Option<&str>) -> (event: LifecycleEvent)
        ensures
            event@ == (EventView::QueryFinish {
                statement: statement@,
                error: failure_view(failure),
            }),
            event@.error() is Some <==> failure is Some,
            (EventView::QueryStart { statement: statement@ }).opens(event@),
    {
        let error = match failure {
            Some(e) => Some(String::from_str(e)),
            None => None,
        };
        LifecycleEvent::QueryFinish { statement: String::from_str(statement), error }
    }

    /// Whether a transaction boundary names a nesting level of at least one.
    pub fn is_well_formed(&self) -> (ok: bool)
        ensures
            ok == self@.well_formed(),
    {
        match self {
            LifecycleEvent::TxBegin { depth } => *depth >= 1,
            LifecycleEvent::TxCommit { depth } => *depth >= 1,
            LifecycleEvent::TxRollback { depth } => *depth >= 1,
            _ => true,
        }
    }
}

} // verus!
