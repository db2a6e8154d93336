//! From what diesel reports to the lifecycle events of this library.
//!
//! An event of diesel is read piece by piece: which variant it is, the
//! text of its payload, the text of its failure, its depth. Each text is
//! written into a buffer, and writing may fail, since the query and the
//! errors are printed by code of their own. What stands for an event whose
//! text could not be written is decided here, in verified code.

use std::fmt::Write;

use diesel::connection::InstrumentationEvent;
use vstd::prelude::*;
use vstd::string::StringExecFns;

use crate::event::{EventView, LifecycleEvent};

verus! {

/// An event as diesel hands it to an instrumentation. It borrows from the
/// connection that reports it, and nothing of its inside is visible here.
#[verifier::external_type_specification]
#[verifier::external_body]
pub struct ExInstrumentationEvent<'a>(InstrumentationEvent<'a>);

/// Which of diesel's variants an event is.
#[derive(Clone, Copy, Debug, PartialEq, Eq, Structural)]
pub enum ReportedKind {
    StartEstablishConnection,
    FinishEstablishConnection,
    StartQuery,
    CacheQuery,
    FinishQuery,
    BeginTransaction,
    CommitTransaction,
    RollbackTransaction,
    /// A variant that this version does not know.
    Other,
}

/// The variant of an event.
pub uninterp spec fn reported_kind(event: InstrumentationEvent<'_>) -> ReportedKind;

/// What writing the payload of an event leaves in an empty buffer, and
/// whether the writing succeeded. The payload is the locator, the query or
/// the cached statement; an event without one leaves the buffer empty.
pub uninterp spec fn written_payload(event: InstrumentationEvent<'_>) -> (Seq<char>, bool);

/// What writing the failure of an event leaves in an empty buffer, and
/// whether the writing succeeded; `None` if the event reports no failure.
pub uninterp spec fn written_failure(event: InstrumentationEvent<'_>) -> Option<(Seq<char>, bool)>;

/// The depth that a transaction boundary names; `None` for another event.
pub uninterp spec fn reported_depth(event: InstrumentationEvent<'_>) -> Option<nat>;

/// What writing the debug form of an event leaves in an empty buffer, and
/// whether the writing succeeded.
pub uninterp spec fn written_debug(event: InstrumentationEvent<'_>) -> (Seq<char>, bool);

/// Tells the variants of diesel's `InstrumentationEvent` apart. It reads
/// the tag only.
#[verifier::external_body]
fn kind_of(event: &InstrumentationEvent<'_>) -> (kind: ReportedKind)
    ensures
        kind == reported_kind(*event),
{
    match event {
        InstrumentationEvent::StartEstablishConnection { .. } => ReportedKind::StartEstablishConnection,
        InstrumentationEvent::FinishEstablishConnection { .. } => ReportedKind::FinishEstablishConnection,
        InstrumentationEvent::StartQuery { .. } => ReportedKind::StartQuery,
        InstrumentationEvent::CacheQuery { .. } => ReportedKind::CacheQuery,
        InstrumentationEvent::FinishQuery { .. } => ReportedKind::FinishQuery,
        InstrumentationEvent::BeginTransaction { .. } => ReportedKind::BeginTransaction,
        InstrumentationEvent::CommitTransaction { .. } => ReportedKind::CommitTransaction,
        InstrumentationEvent::RollbackTransaction { .. } => ReportedKind::RollbackTransaction,
        _ => ReportedKind::Other,
    }
}

/// Writes the payload of an event into an empty buffer with `write!`,
/// which calls `Display` of `str` for a locator or a cached statement and
/// `Display` of diesel's query handle for a query. A failure of that
/// `Display` is handed back as `false` beside what was written until then;
/// nothing unwinds.
#[verifier::external_body]
fn payload_of(event: &InstrumentationEvent<'_>) -> (written: (String, bool))
    ensures
        written.0@ == written_payload(*event).0,
        written.1 == written_payload(*event).1,
{
    let mut text = String::new();
    let done = match event {
        InstrumentationEvent::StartEstablishConnection { url, .. } => write!(text, "{url}"),
        InstrumentationEvent::FinishEstablishConnection { url, .. } => write!(text, "{url}"),
        InstrumentationEvent::StartQuery { query, .. } => write!(text, "{query}"),
        InstrumentationEvent::FinishQuery { query, .. } => write!(text, "{query}"),
        InstrumentationEvent::CacheQuery { sql, .. } => write!(text, "{sql}"),
        _ => Ok(()),
    };
    (text, done.is_ok())
}

/// Writes the failure of an event into an empty buffer with `write!`,
/// which calls `Display` of diesel's `ConnectionError` or `Error`. A
/// failure of that `Display` is handed back as `false`; nothing unwinds.
#[verifier::external_body]
fn failure_of(event: &InstrumentationEvent<'_>) -> (written: Option<(String, bool)>)
    ensures
        match written {
            Some(w) => written_failure(*event) == Some((w.0@, w.1)),
            None => written_failure(*event) is None,
        },
{
    let mut text = String::new();
    let done = match event {
        InstrumentationEvent::FinishEstablishConnection { error: Some(e), .. } => write!(text, "{e}"),
        InstrumentationEvent::FinishQuery { error: Some(e), .. } => write!(text, "{e}"),
        _ => return None,
    };
    Some((text, done.is_ok()))
}

/// Reads the depth of a transaction boundary with `NonZeroU32::get`. The
/// depth is at least one, since diesel holds it in a `NonZeroU32`.
#[verifier::external_body]
fn depth_of(event: &InstrumentationEvent<'_>) -> (depth: Option<u32>)
    ensures
        match depth {
            Some(d) => reported_depth(*event) == Some(d as nat) && d >= 1,
            None => reported_depth(*event) is None,
        },
{
    match event {
        InstrumentationEvent::BeginTransaction { depth, .. } => Some(depth.get()),
        InstrumentationEvent::CommitTransaction { depth, .. } => Some(depth.get()),
        InstrumentationEvent::RollbackTransaction { depth, .. } => Some(depth.get()),
        _ => None,
    }
}

/// Writes the debug form of an event into an empty buffer with `write!`,
/// which calls the derived `Debug` of `InstrumentationEvent`. A failure of
/// a `Debug` inside is handed back as `false`; nothing unwinds.
#[verifier::external_body]
fn debug_of(event: &InstrumentationEvent<'_>) -> (written: (String, bool))
    ensures
        written.0@ == written_debug(*event).0,
        written.1 == written_debug(*event).1,
{
    let mut text = String::new();
    let done = write!(text, "{event:?}");
    (text, done.is_ok())
}

/// The text that stands for a payload that could not be written.
pub open spec fn unprintable() -> Seq<char> {
    "<unprintable>"@
}

/// The text that an attempt to write settles on: what was written if the
/// writing succeeded, and the mark of an unprintable payload otherwise.
pub open spec fn settled(written: (Seq<char>, bool)) -> Seq<char> {
    if written.1 {
        written.0
    } else {
        unprintable()
    }
}

/// The failure that an attempt to write one settles on. A failure stays a
/// failure whether its text could be written or not.
pub open spec fn settled_failure(written: Option<(Seq<char>, bool)>) -> Option<Seq<char>> {
    match written {
        Some(w) => Some(settled(w)),
        None => None,
    }
}

/// The lifecycle event that the pieces of a reported event make up. Each
/// variant of diesel stands for the lifecycle event of the same meaning,
/// with each text as it settled. A variant that is not known, and a
/// boundary without a depth, stand for an `Unknown` event with the debug
/// form of the whole.
pub open spec fn assembled(
    kind: ReportedKind,
    payload: (Seq<char>, bool),
    failure: Option<(Seq<char>, bool)>,
    depth: Option<nat>,
    debug: (Seq<char>, bool),
) -> EventView {
    match (kind, depth) {
        (ReportedKind::StartEstablishConnection, _) => EventView::ConnectStart {
            target: settled(payload),
        },
        (ReportedKind::FinishEstablishConnection, _) => EventView::ConnectFinish {
            target: settled(payload),
            error: settled_failure(failure),
        },
        (ReportedKind::StartQuery, _) => EventView::QueryStart { statement: settled(payload) },
        (ReportedKind::CacheQuery, _) => EventView::CacheStatement { sql: settled(payload) },
        (ReportedKind::FinishQuery, _) => EventView::QueryFinish {
            statement: settled(payload),
            error: settled_failure(failure),
        },
        (ReportedKind::BeginTransaction, Some(level)) => EventView::TxBegin { depth: level },
        (ReportedKind::CommitTransaction, Some(level)) => EventView::TxCommit { depth: level },
        (ReportedKind::RollbackTransaction, Some(level)) => EventView::TxRollback { depth: level },
        _ => EventView::Unknown { raw: settled(debug) },
    }
}

/// The lifecycle event that an event of diesel stands for.
pub open spec fn reported_event(event: InstrumentationEvent<'_>) -> EventView {
    assembled(
        reported_kind(event),
        written_payload(event),
        written_failure(event),
        reported_depth(event),
        written_debug(event),
    )
}

/// The text that an attempt to write settles on.
pub fn settle(written: (String, bool)) -> (text: String)
    ensures
        text@ == settled((written.0@, written.1)),
{
    if written.1 {
        written.0
    } else {
        String::from_str("<unprintable>")
    }
}

/// The failure that an attempt to write one settles on.
pub fn settle_failure(written: Option<(String, bool)>) -> (failure: Option<String>)
    ensures
        match failure {
            Some(text) => match written {
                Some(w) => text@ == settled((w.0@, w.1)),
                None => false,
            },
            None => written is None,
        },
{
    match written {
        Some(w) => Some(settle(w)),
        None => None,
    }
}

/// The payload of an event as the text it settles on: the locator, the
/// query or the cached statement, and the empty text for an event without
/// one.
pub fn payload_text(event: &InstrumentationEvent<'_>) -> (text: String)
    ensures
        text@ == settled(written_payload(*event)),
{
    settle(payload_of(event))
}

/// The failure that an event reports, as the text it settles on; `None`
/// if the event reports no failure.
pub fn failure_text(event: &InstrumentationEvent<'_>) -> (failure: Option<String>)
    ensures
        match failure {
            Some(text) => settled_failure(written_failure(*event)) == Some(text@),
            None => settled_failure(written_failure(*event)) is None,
        },
{
    settle_failure(failure_of(event))
}

/// The lifecycle event that an event of diesel stands for. Every event has
/// one, whatever its payload prints or fails to print: what is not
/// recognised becomes an `Unknown` event and is not dropped.
pub fn classify(event: &InstrumentationEvent<'_>) -> (classified: LifecycleEvent)
    ensures
        classified@ == reported_event(*event),
        classified@.well_formed(),
{
    let kind = kind_of(event);
    let depth = depth_of(event);
    match (kind, depth) {
        (ReportedKind::StartEstablishConnection, _) => LifecycleEvent::ConnectStart {
            target: settle(payload_of(event)),
        },
        (ReportedKind::FinishEstablishConnection, _) => LifecycleEvent::ConnectFinish {
            target: settle(payload_of(event)),
            error: settle_failure(failure_of(event)),
        },
        (ReportedKind::StartQuery, _) => LifecycleEvent::QueryStart {
            statement: settle(payload_of(event)),
        },
        (ReportedKind::CacheQuery, _) => LifecycleEvent::CacheStatement {
            sql: settle(payload_of(event)),
        },
        (ReportedKind::FinishQuery, _) => LifecycleEvent::QueryFinish {
            statement: settle(payload_of(event)),
            error: settle_failure(failure_of(event)),
        },
        (ReportedKind::BeginTransaction, Some(level)) => LifecycleEvent::TxBegin { depth: level },
        (ReportedKind::CommitTransaction, Some(level)) => LifecycleEvent::TxCommit { depth: level },
        (ReportedKind::RollbackTransaction, Some(level)) => LifecycleEvent::TxRollback {
            depth: level,
        },
        _ => LifecycleEvent::Unknown { raw: settle(debug_of(event)) },
    }
}

} // verus!
