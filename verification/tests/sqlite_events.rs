//! The records of what a real in-memory SQLite connection reports.

use std::error::Error;
use std::fmt;
use std::num::NonZeroU32;
use std::sync::{Arc, Mutex};

use diesel::connection::{
    set_default_instrumentation, DebugQuery, Instrumentation, InstrumentationEvent,
};
use diesel::sqlite::SqliteConnection;
use diesel::{Connection, RunQueryDsl};

use diesel_tracing::classify::{classify, failure_text, payload_text};
use diesel_tracing::event::LifecycleEvent;
use diesel_tracing::policy::EmissionPolicy;
use diesel_tracing::record::{FieldValue, Level, Record};
use diesel_tracing::sqlite::InstrumentedSqliteConnection;
use diesel_tracing::transaction::keeps_stack_discipline;
use diesel_tracing::TracingInstrumentation;

type Log<T> = Arc<Mutex<Vec<T>>>;

/// A query, and an error, that cannot be printed.
#[derive(Debug)]
struct Unprintable;

impl fmt::Display for Unprintable {
    fn fmt(&self, _: &mut fmt::Formatter<'_>) -> fmt::Result {
        Err(fmt::Error)
    }
}

impl Error for Unprintable {}

impl DebugQuery for Unprintable {}

/// A query that fails to print after it has printed a part.
#[derive(Debug)]
struct HalfPrinted;

impl fmt::Display for HalfPrinted {
    fn fmt(&self, f: &mut fmt::Formatter<'_>) -> fmt::Result {
        f.write_str("UPDATE users SET ")?;
        Err(fmt::Error)
    }
}

impl DebugQuery for HalfPrinted {}

static ESTABLISHMENTS: Mutex<Vec<Record>> = Mutex::new(Vec::new());
static FAILED_ESTABLISHMENTS: Mutex<Vec<Record>> = Mutex::new(Vec::new());

/// Records what the connection reports.
fn recording(
    mut instrumentation: TracingInstrumentation,
    records: Log<Record>,
) -> impl Instrumentation {
    move |event: InstrumentationEvent<'_>| {
        let record = instrumentation.on_connection_event(event);
        records.lock().unwrap().push(record);
    }
}

/// Records what the connection reports, and keeps the classified events.
fn recording_events(
    mut instrumentation: TracingInstrumentation,
    records: Log<Record>,
    events: Log<LifecycleEvent>,
) -> impl Instrumentation {
    move |event: InstrumentationEvent<'_>| {
        let event = classify(&event);
        let record = instrumentation.on_lifecycle_event(&event);
        events.lock().unwrap().push(event);
        records.lock().unwrap().push(record);
    }
}

fn recorded_by_default() -> Option<Box<dyn Instrumentation>> {
    let mut instrumentation = TracingInstrumentation::new(true);
    Some(Box::new(move |event: InstrumentationEvent<'_>| {
        let record = instrumentation.on_connection_event(event);
        ESTABLISHMENTS.lock().unwrap().push(record);
    }))
}

fn failures_recorded_by_default() -> Option<Box<dyn Instrumentation>> {
    let mut instrumentation = TracingInstrumentation::with_policy(EmissionPolicy::default());
    Some(Box::new(move |event: InstrumentationEvent<'_>| {
        let record = instrumentation.on_connection_event(event);
        FAILED_ESTABLISHMENTS.lock().unwrap().push(record);
    }))
}

fn not_recorded() -> Option<Box<dyn Instrumentation>> {
    None
}

#[test]
fn handle_connection_events() -> Result<(), Box<dyn Error>> {
    set_default_instrumentation(recorded_by_default).unwrap();
    let _conn = SqliteConnection::establish(":memory:")?;
    set_default_instrumentation(not_recorded).unwrap();

    let events = ESTABLISHMENTS.lock().unwrap();
    assert_eq!(events.len(), 2);
    assert!(events[0]
        .message
        .contains("Started establishing connection with url: `:memory:`"));
    assert_eq!(events[0].name, "StartEstablishConnection");
    assert_eq!(events[0].field("target"), Some(&FieldValue::Text(":memory:".to_string())));

    assert!(events[1].message.contains("Established connected to `:memory:`"));
    assert_eq!(events[1].name, "FinishEstablishConnection");
    assert_eq!(events[1].field("target"), Some(&FieldValue::Text(":memory:".to_string())));
    assert_eq!(events[1].field("error"), None);
    assert_eq!(events[1].level, Level::Debug);

    Ok(())
}

#[test]
fn a_failed_establishment_is_reported_as_an_error() {
    set_default_instrumentation(failures_recorded_by_default).unwrap();
    let outcome = SqliteConnection::establish("/no/such/directory/anywhere/file.db");
    set_default_instrumentation(not_recorded).unwrap();
    let failure = outcome.err().expect("the directory does not exist").to_string();

    let events = FAILED_ESTABLISHMENTS.lock().unwrap();
    assert_eq!(events.len(), 2);
    assert_eq!(events[0].name, "StartEstablishConnection");
    assert_eq!(events[0].level, Level::Debug);
    assert_eq!(events[0].message, "Started establishing connection");
    assert!(events[0].fields.is_empty());

    assert_eq!(events[1].name, "FinishEstablishConnection");
    assert_eq!(events[1].level, Level::Error);
    assert!(!failure.is_empty());
    assert_eq!(events[1].field("error"), Some(&FieldValue::Text(failure.clone())));
    assert_eq!(events[1].field("target"), None);
    assert_eq!(
        events[1].message,
        format!("Failed to establish connection, error: {}", failure)
    );
}

#[test]
fn handle_simple_queries_events() -> Result<(), Box<dyn Error>> {
    let records: Log<Record> = Arc::default();
    let mut conn = SqliteConnection::establish(":memory:")?;
    conn.set_instrumentation(recording(TracingInstrumentation::new(true), Arc::clone(&records)));

    let query = diesel::sql_query("SELECT 1");
    query.execute(&mut conn)?;

    let events = records.lock().unwrap();
    assert_eq!(events.len(), 2);
    assert!(events[0].message.contains("Started query: `SELECT 1 -- binds: []`"));
    assert_eq!(events[0].name, "StartedQuery");
    assert_eq!(events[0].field("error"), None);

    assert!(events[1].message.contains("Finished query: `SELECT 1 -- binds: []`"));
    assert_eq!(events[1].name, "FinishQuery");
    assert_eq!(events[1].field("error"), None);
    for event in events.iter() {
        assert_eq!(
            event.field("statement"),
            Some(&FieldValue::Text("SELECT 1 -- binds: []".to_string()))
        );
    }

    Ok(())
}

#[test]
fn handle_error_events() -> Result<(), Box<dyn Error>> {
    let records: Log<Record> = Arc::default();
    let mut conn = SqliteConnection::establish(":memory:")?;
    conn.set_instrumentation(recording(TracingInstrumentation::new(true), Arc::clone(&records)));

    // query with a syntax error
    let query = diesel::sql_query("SELECT DELETE");
    // Intentionally ignoring the error here
    let _res = query.execute(&mut conn);

    let events = records.lock().unwrap();
    assert_eq!(events.len(), 2);
    assert!(events[0].message.contains("Started query: `SELECT DELETE -- binds: []`"));
    assert_eq!(events[0].level, Level::Debug);
    assert_eq!(events[0].field("error"), None);

    assert!(events[1].message.contains(
        "Failed to execute query: `SELECT DELETE -- binds: []`, error: near \"DELETE\": syntax error"
    ));
    assert_eq!(events[1].name, "FinishQuery");
    assert_eq!(events[1].level, Level::Error);
    assert_eq!(
        events[1].field("error"),
        Some(&FieldValue::Text("near \"DELETE\": syntax error".to_string()))
    );

    Ok(())
}

#[test]
fn handle_transactions() -> Result<(), Box<dyn Error>> {
    let records: Log<Record> = Arc::default();
    let reported: Log<LifecycleEvent> = Arc::default();
    let mut conn = SqliteConnection::establish(":memory:")?;
    conn.set_instrumentation(recording_events(
        TracingInstrumentation::new(true),
        Arc::clone(&records),
        Arc::clone(&reported),
    ));

    conn.transaction(|conn| {
        let query = diesel::sql_query("SELECT 1");
        query.execute(conn)?;

        Ok::<(), Box<dyn Error>>(())
    })?;

    let events = records.lock().unwrap();
    assert_eq!(events.len(), 8);
    assert!(events[0].message.contains("Started transaction with depth: 1"));
    assert_eq!(events[0].name, "BeginTransaction");

    assert!(events[1].message.contains("Started query: `BEGIN`"));
    assert_eq!(events[1].name, "StartedQuery");

    assert!(events[2].message.contains("Finished query: `BEGIN`"));
    assert_eq!(events[2].name, "FinishQuery");

    assert!(events[3].message.contains("Started query: `SELECT 1 -- binds: []`"));
    assert_eq!(events[3].name, "StartedQuery");

    assert!(events[4].message.contains("Finished query: `SELECT 1 -- binds: []`"));
    assert_eq!(events[4].name, "FinishQuery");

    assert!(events[5].message.contains("Commiting transaction with depth: 1"));
    assert_eq!(events[5].name, "CommitTransaction");

    assert!(events[6].message.contains("Started query: `COMMIT`"));
    assert_eq!(events[6].name, "StartedQuery");

    assert!(events[7].message.contains("Finished query: `COMMIT`"));
    assert_eq!(events[7].name, "FinishQuery");

    for event in events.iter() {
        assert_eq!(event.level, Level::Debug);
    }
    assert_eq!(events[0].field("depth"), Some(&FieldValue::Integer(1)));
    assert_eq!(events[5].field("depth"), Some(&FieldValue::Integer(1)));
    assert!(keeps_stack_discipline(&reported.lock().unwrap()));
    Ok(())
}

#[test]
fn with_instrumented_connection() -> Result<(), Box<dyn Error>> {
    let records: Log<Record> = Arc::default();
    let mut conn = SqliteConnection::establish(":memory:")?;
    let (pending, _start) =
        InstrumentedSqliteConnection::begin_establish(":memory:", EmissionPolicy::new(true, true));
    let (established, _finish) = InstrumentedSqliteConnection::establish(pending, None);
    let mut instrumented = established.expect("no failure was reported");

    let log = Arc::clone(&records);
    conn.set_instrumentation(move |event: InstrumentationEvent<'_>| {
        let record = instrumented.observe(&classify(&event));
        log.lock().unwrap().push(record);
    });

    let query = diesel::sql_query("SELECT 1");
    query.execute(&mut conn)?;

    let events = records.lock().unwrap();
    assert_eq!(events.len(), 2);

    assert!(events[0].message.contains("Started query: `SELECT 1 -- binds: []`"));
    assert!(events[1].message.contains("Finished query: `SELECT 1 -- binds: []`"));
    for event in events.iter() {
        assert_eq!(event.field("db.system"), Some(&FieldValue::Text("sqlite".to_string())));
        assert_eq!(event.field("otel.kind"), Some(&FieldValue::Text("client".to_string())));
    }

    Ok(())
}

#[test]
fn nested_transactions_report_a_stack_of_depths() -> Result<(), Box<dyn Error>> {
    let records: Log<Record> = Arc::default();
    let reported: Log<LifecycleEvent> = Arc::default();
    let mut conn = SqliteConnection::establish(":memory:")?;
    conn.set_instrumentation(recording_events(
        TracingInstrumentation::with_policy(EmissionPolicy::default()),
        Arc::clone(&records),
        Arc::clone(&reported),
    ));

    conn.transaction(|conn| {
        conn.transaction(|conn| {
            diesel::sql_query("SELECT 1").execute(conn)?;
            Ok::<(), diesel::result::Error>(())
        })?;
        let inner: Result<(), diesel::result::Error> =
            conn.transaction(|_| Err(diesel::result::Error::RollbackTransaction));
        assert!(inner.is_err());
        Ok::<(), diesel::result::Error>(())
    })?;

    let reported = reported.lock().unwrap();
    let depths: Vec<LifecycleEvent> = reported
        .iter()
        .filter(|event| {
            matches!(
                event,
                LifecycleEvent::TxBegin { .. }
                    | LifecycleEvent::TxCommit { .. }
                    | LifecycleEvent::TxRollback { .. }
            )
        })
        .cloned()
        .collect();
    assert_eq!(
        depths,
        vec![
            LifecycleEvent::TxBegin { depth: 1 },
            LifecycleEvent::TxBegin { depth: 2 },
            LifecycleEvent::TxCommit { depth: 2 },
            LifecycleEvent::TxBegin { depth: 2 },
            LifecycleEvent::TxRollback { depth: 2 },
            LifecycleEvent::TxCommit { depth: 1 },
        ]
    );
    assert!(keeps_stack_discipline(&reported));

    // Statement text is withheld: no record shows it, in a field or in its line.
    for record in records.lock().unwrap().iter() {
        assert_eq!(record.field("statement"), None);
        assert!(!record.message.contains("SELECT"));
        assert!(!record.message.contains("SAVEPOINT"));
    }
    Ok(())
}

#[test]
fn every_event_of_diesel_is_classified() {
    let failure = diesel::result::Error::NotFound;
    let refused = diesel::result::ConnectionError::BadConnection("refused".to_string());
    let query = diesel::connection::StrQueryHelper::new("SELECT 1");
    let depth = NonZeroU32::new(3).unwrap();

    assert_eq!(
        classify(&InstrumentationEvent::start_establish_connection("db")),
        LifecycleEvent::ConnectStart { target: "db".to_string() }
    );
    assert_eq!(
        classify(&InstrumentationEvent::finish_establish_connection("db", None)),
        LifecycleEvent::ConnectFinish { target: "db".to_string(), error: None }
    );
    assert_eq!(
        classify(&InstrumentationEvent::finish_establish_connection("db", Some(&refused))),
        LifecycleEvent::ConnectFinish { target: "db".to_string(), error: Some("refused".to_string()) }
    );
    assert_eq!(
        classify(&InstrumentationEvent::start_query(&query)),
        LifecycleEvent::QueryStart { statement: "SELECT 1".to_string() }
    );
    assert_eq!(
        classify(&InstrumentationEvent::cache_query("SELECT ?")),
        LifecycleEvent::CacheStatement { sql: "SELECT ?".to_string() }
    );
    assert_eq!(
        classify(&InstrumentationEvent::finish_query(&query, None)),
        LifecycleEvent::QueryFinish { statement: "SELECT 1".to_string(), error: None }
    );
    assert_eq!(
        classify(&InstrumentationEvent::finish_query(&query, Some(&failure))),
        LifecycleEvent::QueryFinish {
            statement: "SELECT 1".to_string(),
            error: Some(failure.to_string()),
        }
    );
    assert_eq!(
        classify(&InstrumentationEvent::begin_transaction(depth)),
        LifecycleEvent::TxBegin { depth: 3 }
    );
    assert_eq!(
        classify(&InstrumentationEvent::commit_transaction(depth)),
        LifecycleEvent::TxCommit { depth: 3 }
    );
    assert_eq!(
        classify(&InstrumentationEvent::rollback_transaction(depth)),
        LifecycleEvent::TxRollback { depth: 3 }
    );
}

#[test]
fn a_cached_statement_is_reported_between_start_and_finish() -> Result<(), Box<dyn Error>> {
    let records: Log<Record> = Arc::default();
    let mut conn = SqliteConnection::establish(":memory:")?;
    conn.set_instrumentation(recording(TracingInstrumentation::new(false), Arc::clone(&records)));

    let one: i32 = diesel::select(diesel::dsl::sql::<diesel::sql_types::Integer>("1"))
        .get_result(&mut conn)?;
    assert_eq!(one, 1);

    let events = records.lock().unwrap();
    let names: Vec<&str> = events.iter().map(|record| record.name.as_str()).collect();
    assert_eq!(names.first(), Some(&"StartedQuery"));
    assert_eq!(names.last(), Some(&"FinishQuery"));
    for record in events.iter() {
        assert_eq!(record.level, Level::Debug);
        assert!(record.has_field("statement"));
    }
    Ok(())
}

#[test]
fn an_event_whose_query_cannot_be_printed_still_has_its_record() {
    let mut instrumentation = TracingInstrumentation::new(true);
    for query in [&Unprintable as &dyn DebugQuery, &HalfPrinted] {
        assert_eq!(
            classify(&InstrumentationEvent::start_query(query)),
            LifecycleEvent::QueryStart { statement: "<unprintable>".to_string() }
        );
        assert_eq!(payload_text(&InstrumentationEvent::start_query(query)), "<unprintable>");

        let started = instrumentation.on_connection_event(InstrumentationEvent::start_query(query));
        assert_eq!(started.name, "StartedQuery");
        assert_eq!(started.level, Level::Debug);
        assert_eq!(started.message, "Started query: `<unprintable>`");

        let failure = diesel::result::Error::NotFound;
        let finished = instrumentation
            .on_connection_event(InstrumentationEvent::finish_query(query, Some(&failure)));
        assert_eq!(finished.name, "FinishQuery");
        assert_eq!(finished.level, Level::Error);
        assert_eq!(
            finished.message,
            "Failed to execute query: `<unprintable>`, error: Record not found"
        );
    }
}

#[test]
fn a_failure_that_cannot_be_printed_is_still_a_failure() {
    let query = diesel::connection::StrQueryHelper::new("UPDATE users SET");
    let failure = diesel::result::Error::QueryBuilderError(Box::new(Unprintable));
    let event = InstrumentationEvent::finish_query(&query, Some(&failure));
    assert_eq!(failure_text(&event), Some("<unprintable>".to_string()));
    assert_eq!(
        classify(&event),
        LifecycleEvent::QueryFinish {
            statement: "UPDATE users SET".to_string(),
            error: Some("<unprintable>".to_string()),
        }
    );
    let record = TracingInstrumentation::new(false).on_connection_event(event);
    assert_eq!(record.level, Level::Error);
    assert_eq!(record.field("error"), Some(&FieldValue::Text("<unprintable>".to_string())));

    let refused = diesel::result::ConnectionError::CouldntSetupConfiguration(
        diesel::result::Error::QueryBuilderError(Box::new(Unprintable)),
    );
    let event = InstrumentationEvent::finish_establish_connection("db", Some(&refused));
    assert_eq!(failure_text(&event), Some("<unprintable>".to_string()));
    let record = TracingInstrumentation::new(false).on_connection_event(event);
    assert_eq!(record.level, Level::Error);
    assert_eq!(record.message, "Failed to establish connection, error: <unprintable>");
}

#[test]
fn the_pieces_of_an_event_are_read_one_by_one() {
    let query = diesel::connection::StrQueryHelper::new("SELECT 1");
    let failure = diesel::result::Error::NotFound;
    assert_eq!(payload_text(&InstrumentationEvent::start_establish_connection("db")), "db");
    assert_eq!(payload_text(&InstrumentationEvent::cache_query("SELECT ?")), "SELECT ?");
    assert_eq!(payload_text(&InstrumentationEvent::finish_query(&query, None)), "SELECT 1");
    assert_eq!(
        payload_text(&InstrumentationEvent::begin_transaction(NonZeroU32::new(2).unwrap())),
        ""
    );
    assert_eq!(failure_text(&InstrumentationEvent::start_query(&query)), None);
    assert_eq!(failure_text(&InstrumentationEvent::finish_query(&query, None)), None);
    assert_eq!(
        failure_text(&InstrumentationEvent::finish_query(&query, Some(&failure))),
        Some("Record not found".to_string())
    );
    assert_eq!(
        failure_text(&InstrumentationEvent::finish_establish_connection("db", None)),
        None
    );
}

#[test]
fn a_reported_boundary_that_breaks_the_nesting_is_surfaced_as_a_warning() {
    let (pending, _) =
        InstrumentedSqliteConnection::begin_establish(":memory:", EmissionPolicy::default());
    let mut connection =
        InstrumentedSqliteConnection::establish(pending, None).0.expect("no failure was reported");
    let depth = |d| NonZeroU32::new(d).unwrap();

    let begun = connection.observe(&classify(&InstrumentationEvent::begin_transaction(depth(1))));
    assert_eq!(begun.name, "BeginTransaction");
    assert_eq!(connection.decorator().depth(), 1);

    // The same level is opened again, as after a `BEGIN` that failed.
    let again = connection.observe(&classify(&InstrumentationEvent::begin_transaction(depth(1))));
    assert_eq!(again.name, "<UnknownEvent>");
    assert_eq!(again.level, Level::Warn);
    assert_eq!(again.message, "Unknown event: Started transaction with depth: 1");
    assert_eq!(
        again.field("raw"),
        Some(&FieldValue::Text("Started transaction with depth: 1".to_string()))
    );
    assert_eq!(again.field("depth"), None);
    assert_eq!(connection.decorator().depth(), 1);

    let committed =
        connection.observe(&classify(&InstrumentationEvent::commit_transaction(depth(1))));
    assert_eq!(committed.name, "CommitTransaction");
    assert_eq!(connection.decorator().depth(), 0);
}
