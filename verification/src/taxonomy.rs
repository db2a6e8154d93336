//! The field taxonomy: which record an event becomes under a redaction
//! policy.

use vstd::prelude::*;
use vstd::string::StringExecFns;

use crate::event::{EventView, LifecycleEvent};
use crate::policy::EmissionPolicy;
use crate::record::{
    Field, FieldValueView, FieldView, Level, Record, RecordView, distinct_names, field_value,
    fields_view, has_field, lemma_position_of,
};
use crate::text::{append_decimal, decimal, enclose};

verus! {

/// The constant name of the records of one kind of event.
pub open spec fn event_name(event: EventView) -> Seq<char> {
    match event {
        EventView::ConnectStart { .. } => "StartEstablishConnection"@,
        EventView::ConnectFinish { .. } => "FinishEstablishConnection"@,
        EventView::QueryStart { .. } => "StartedQuery"@,
        EventView::QueryFinish { .. } => "FinishQuery"@,
        EventView::CacheStatement { .. } => "CacheQuery"@,
        EventView::TxBegin { .. } => "BeginTransaction"@,
        EventView::TxCommit { .. } => "CommitTransaction"@,
        EventView::TxRollback { .. } => "RollbackTransaction"@,
        EventView::Unknown { .. } => "<UnknownEvent>"@,
    }
}

/// The severity of an event: a warning for an unclassified event, an error
/// for an event that reports a failure, routine otherwise.
pub open spec fn event_level(event: EventView) -> Level {
    if event is Unknown {
        Level::Warn
    } else if event.error() is Some {
        Level::Error
    } else {
        Level::Debug
    }
}

/// The human-readable line of an event. A gated payload appears in it only
/// if the policy includes it.
pub open spec fn event_message(event: EventView, policy: EmissionPolicy) -> Seq<char> {
    match event {
        EventView::ConnectStart { target } => if policy.include_target {
            "Started establishing connection with url: `"@ + target + "`"@
        } else {
            "Started establishing connection"@
        },
        EventView::ConnectFinish { target, error: Some(error) } => if policy.include_target {
            "Failed to establish connection for `"@ + target + "`, error: "@ + error
        } else {
            "Failed to establish connection, error: "@ + error
        },
        EventView::ConnectFinish { target, error: None } => if policy.include_target {
            "Established connected to `"@ + target + "`"@
        } else {
            "Established connection"@
        },
        EventView::QueryStart { statement } => if policy.include_statement_text {
            "Started query: `"@ + statement + "`"@
        } else {
            "Started query"@
        },
        EventView::QueryFinish { statement, error: Some(error) } => if policy.include_statement_text {
            "Failed to execute query: `"@ + statement + "`, error: "@ + error
        } else {
            "Failed to execute query, error: "@ + error
        },
        EventView::QueryFinish { statement, error: None } => if policy.include_statement_text {
            "Finished query: `"@ + statement + "`"@
        } else {
            "Finished query"@
        },
        EventView::CacheStatement { sql } => if policy.include_statement_text {
            "Caching query: `"@ + sql + "`"@
        } else {
            "Caching query"@
        },
        EventView::TxBegin { depth } => "Started transaction with depth: "@ + decimal(depth),
        EventView::TxCommit { depth } => "Commiting transaction with depth: "@ + decimal(depth),
        EventView::TxRollback { depth } => "Rolling back transaction with depth: "@ + decimal(
            depth,
        ),
        EventView::Unknown { raw } => "Unknown event: "@ + raw,
    }
}

/// A field that holds a text.
pub open spec fn text_field(name: Seq<char>, value: Seq<char>) -> FieldView {
    FieldView { name, value: FieldValueView::Text(value) }
}

/// A field that holds an integer.
pub open spec fn integer_field(name: Seq<char>, value: int) -> FieldView {
    FieldView { name, value: FieldValueView::Integer(value) }
}

/// The one text field `name`, or no field at all if `shown` is off.
pub open spec fn gated_field(shown: bool, name: Seq<char>, value: Seq<char>) -> Seq<FieldView> {
    if shown {
        seq![text_field(name, value)]
    } else {
        Seq::empty()
    }
}

/// The `error` field of a failure, or no field for a success.
pub open spec fn error_fields(error: Option<Seq<char>>) -> Seq<FieldView> {
    match error {
        Some(e) => seq![text_field("error"@, e)],
        None => Seq::empty(),
    }
}

/// The named fields of an event, in emission order: what is always emitted
/// first, then what the policy admits.
pub open spec fn event_fields(event: EventView, policy: EmissionPolicy) -> Seq<FieldView> {
    match event {
        EventView::ConnectStart { target } => gated_field(
            policy.include_target,
            "target"@,
            target,
        ),
        EventView::ConnectFinish { target, error } => error_fields(error) + gated_field(
            policy.include_target,
            "target"@,
            target,
        ),
        EventView::QueryStart { statement } => gated_field(
            policy.include_statement_text,
            "statement"@,
            statement,
        ),
        EventView::QueryFinish { statement, error } => error_fields(error) + gated_field(
            policy.include_statement_text,
            "statement"@,
            statement,
        ),
        EventView::CacheStatement { sql } => gated_field(
            policy.include_statement_text,
            "statement"@,
            sql,
        ),
        EventView::TxBegin { depth } => seq![integer_field("depth"@, depth as int)],
        EventView::TxCommit { depth } => seq![integer_field("depth"@, depth as int)],
        EventView::TxRollback { depth } => seq![integer_field("depth"@, depth as int)],
        EventView::Unknown { raw } => seq![text_field("raw"@, raw)],
    }
}

/// The record that `event` becomes under `policy`.
pub open spec fn render_spec(event: EventView, policy: EmissionPolicy) -> RecordView {
    RecordView {
        name: event_name(event),
        level: event_level(event),
        message: event_message(event, policy),
        fields: event_fields(event, policy),
    }
}

/// The constant name of the records of this kind of event.
pub fn name_of(event: &LifecycleEvent) -> (name: &'static str)
    ensures
        name@ == event_name(event@),
{
    match event {
        LifecycleEvent::ConnectStart { .. } => "StartEstablishConnection",
        LifecycleEvent::ConnectFinish { .. } => "FinishEstablishConnection",
        LifecycleEvent::QueryStart { .. } => "StartedQuery",
        LifecycleEvent::QueryFinish { .. } => "FinishQuery",
        LifecycleEvent::CacheStatement { .. } => "CacheQuery",
        LifecycleEvent::TxBegin { .. } => "BeginTransaction",
        LifecycleEvent::TxCommit { .. } => "CommitTransaction",
        LifecycleEvent::TxRollback { .. } => "RollbackTransaction",
        LifecycleEvent::Unknown { .. } => "<UnknownEvent>",
    }
}

/// The severity of the event.
pub fn level_of(event: &LifecycleEvent) -> (level: Level)
    ensures
        level == event_level(event@),
{
    match event {
        LifecycleEvent::Unknown { .. } => Level::Warn,
        LifecycleEvent::ConnectFinish { error: Some(_), .. } => Level::Error,
        LifecycleEvent::QueryFinish { error: Some(_), .. } => Level::Error,
        _ => Level::Debug,
    }
}

/// `plain` if the payload is withheld, else `head`, the payload and a
/// closing backtick.
fn line_of(shown: bool, plain: &str, head: &str, payload: &str) -> (line: String)
    ensures
        line@ == if shown {
            head@ + payload@ + "`"@
        } else {
            plain@
        },
{
    if shown {
        enclose(head, payload, "`")
    } else {
        String::from_str(plain)
    }
}

/// The line of a failure: `plain` and the error if the payload is withheld,
/// else `head`, the payload, a separator and the error.
fn failure_line_of(
    shown: bool,
    plain: &str,
    head: &str,
    payload: &str,
    error: &str,
) -> (line: String)
    ensures
        line@ == if shown {
            head@ + payload@ + "`, error: "@ + error@
        } else {
            plain@ + error@
        },
{
    if shown {
        let mut line = enclose(head, payload, "`, error: ");
        line.append(error);
        line
    } else {
        let mut line = String::from_str(plain);
        line.append(error);
        line
    }
}

/// `head` followed by the decimal numeral of `depth`.
fn depth_line_of(head: &str, depth: u32) -> (line: String)
    ensures
        line@ == head@ + decimal(depth as nat),
{
    let mut line = String::from_str(head);
    append_decimal(&mut line, depth as u64);
    line
}

/// The human-readable line of the event under `policy`.
pub fn message_of(event: &LifecycleEvent, policy: EmissionPolicy) -> (message: String)
    ensures
        message@ == event_message(event@, policy),
{
    match event {
        LifecycleEvent::ConnectStart { target } => line_of(
            policy.include_target,
            "Started establishing connection",
            "Started establishing connection with url: `",
            target.as_str(),
        ),
        LifecycleEvent::ConnectFinish { target, error: Some(error) } => failure_line_of(
            policy.include_target,
            "Failed to establish connection, error: ",
            "Failed to establish connection for `",
            target.as_str(),
            error.as_str(),
        ),
        LifecycleEvent::ConnectFinish { target, error: None } => line_of(
            policy.include_target,
            "Established connection",
            "Established connected to `",
            target.as_str(),
        ),
        LifecycleEvent::QueryStart { statement } => line_of(
            policy.include_statement_text,
            "Started query",
            "Started query: `",
            statement.as_str(),
        ),
        LifecycleEvent::QueryFinish { statement, error: Some(error) } => failure_line_of(
            policy.include_statement_text,
            "Failed to execute query, error: ",
            "Failed to execute query: `",
            statement.as_str(),
            error.as_str(),
        ),
        LifecycleEvent::QueryFinish { statement, error: None } => line_of(
            policy.include_statement_text,
            "Finished query",
            "Finished query: `",
            statement.as_str(),
        ),
        LifecycleEvent::CacheStatement { sql } => line_of(
            policy.include_statement_text,
            "Caching query",
            "Caching query: `",
            sql.as_str(),
        ),
        LifecycleEvent::TxBegin { depth } => depth_line_of(
            "Started transaction with depth: ",
            *depth,
        ),
        LifecycleEvent::TxCommit { depth } => depth_line_of(
            "Commiting transaction with depth: ",
            *depth,
        ),
        LifecycleEvent::TxRollback { depth } => depth_line_of(
            "Rolling back transaction with depth: ",
            *depth,
        ),
        LifecycleEvent::Unknown { raw } => {
            let mut line = String::from_str("Unknown event: ");
            line.append(raw.as_str());
            line
        },
    }
}

/// The fields of an operation's outcome and its gated payload: the `error`
/// field of a failure first, then the payload if `shown` is on.
fn outcome_fields_of(
    error: &Option<String>,
    shown: bool,
    name: &str,
    payload: &str,
) -> (fields: Vec<Field>)
    ensures
        fields_view(fields@) == error_fields(crate::event::text_view(*error)) + gated_field(
            shown,
            name@,
            payload@,
        ),
{
    let mut fields: Vec<Field> = Vec::new();
    match error {
        Some(e) => {
            fields.push(Field::text("error", e.as_str()));
        },
        None => {},
    }
    if shown {
        fields.push(Field::text(name, payload));
    }
    assert(fields_view(fields@) =~= error_fields(crate::event::text_view(*error)) + gated_field(
        shown,
        name@,
        payload@,
    ));
    fields
}

/// The list that holds `field` and nothing else.
fn single_field_of(field: Field) -> (fields: Vec<Field>)
    ensures
        fields_view(fields@) == seq![field@],
{
    let mut fields: Vec<Field> = Vec::new();
    fields.push(field);
    assert(fields_view(fields@) =~= seq![field@]);
    fields
}

/// The named fields of the event under `policy`, in emission order.
pub fn fields_of(event: &LifecycleEvent, policy: EmissionPolicy) -> (fields: Vec<Field>)
    ensures
        fields_view(fields@) == event_fields(event@, policy),
{
    let none: Option<String> = None;
    let fields = match event {
        LifecycleEvent::ConnectStart { target } => outcome_fields_of(
            &none,
            policy.include_target,
            "target",
            target.as_str(),
        ),
        LifecycleEvent::ConnectFinish { target, error } => outcome_fields_of(
            error,
            policy.include_target,
            "target",
            target.as_str(),
        ),
        LifecycleEvent::QueryStart { statement } => outcome_fields_of(
            &none,
            policy.include_statement_text,
            "statement",
            statement.as_str(),
        ),
        LifecycleEvent::QueryFinish { statement, error } => outcome_fields_of(
            error,
            policy.include_statement_text,
            "statement",
            statement.as_str(),
        ),
        LifecycleEvent::CacheStatement { sql } => outcome_fields_of(
            &none,
            policy.include_statement_text,
            "statement",
            sql.as_str(),
        ),
        LifecycleEvent::TxBegin { depth } => single_field_of(Field::integer("depth", *depth as i64)),
        LifecycleEvent::TxCommit { depth } => single_field_of(
            Field::integer("depth", *depth as i64),
        ),
        LifecycleEvent::TxRollback { depth } => single_field_of(
            Field::integer("depth", *depth as i64),
        ),
        LifecycleEvent::Unknown { raw } => single_field_of(Field::text("raw", raw.as_str())),
    };
    assert(fields_view(fields@) =~= event_fields(event@, policy));
    fields
}

/// Renders `event` under `policy`: the kind's constant name, the severity,
/// the line, and the fields that the policy admits.
pub fn render(event: &LifecycleEvent, policy: EmissionPolicy) -> (record: Record)
    ensures
        record@ == render_spec(event@, policy),
{
    Record {
        name: String::from_str(name_of(event)),
        level: level_of(event),
        message: message_of(event, policy),
        fields: fields_of(event, policy),
    }
}

/// The event with every payload that `policy` withholds blanked out.
pub open spec fn redacted(event: EventView, policy: EmissionPolicy) -> EventView {
    match event {
        EventView::ConnectStart { target } => EventView::ConnectStart {
            target: if policy.include_target {
                target
            } else {
                Seq::empty()
            },
        },
        EventView::ConnectFinish { target, error } => EventView::ConnectFinish {
            target: if policy.include_target {
                target
            } else {
                Seq::empty()
            },
            error,
        },
        EventView::QueryStart { statement } => EventView::QueryStart {
            statement: if policy.include_statement_text {
                statement
            } else {
                Seq::empty()
            },
        },
        EventView::QueryFinish { statement, error } => EventView::QueryFinish {
            statement: if policy.include_statement_text {
                statement
            } else {
                Seq::empty()
            },
            error,
        },
        EventView::CacheStatement { sql } => EventView::CacheStatement {
            sql: if policy.include_statement_text {
                sql
            } else {
                Seq::empty()
            },
        },
        _ => event,
    }
}

/// Whether `name` is one of the names that the fields of events have.
pub open spec fn is_event_field(name: Seq<char>) -> bool {
    name == "error"@ || name == "target"@ || name == "statement"@ || name == "depth"@ || name
        == "raw"@
}

/// The field names of the taxonomy are pairwise different.
pub proof fn lemma_field_names_differ()
    ensures
        "error"@ != "target"@,
        "error"@ != "statement"@,
        "error"@ != "depth"@,
        "error"@ != "raw"@,
        "target"@ != "statement"@,
        "target"@ != "depth"@,
        "target"@ != "raw"@,
        "statement"@ != "depth"@,
        "statement"@ != "raw"@,
        "depth"@ != "raw"@,
{
    reveal_strlit("error");
    reveal_strlit("target");
    reveal_strlit("statement");
    reveal_strlit("depth");
    reveal_strlit("raw");
    assert("error"@.len() == 5);
    assert("target"@.len() == 6);
    assert("statement"@.len() == 9);
    assert("depth"@.len() == 5);
    assert("raw"@.len() == 3);
    assert("error"@[0] == 'e');
    assert("depth"@[0] == 'd');
}

/// Severity is a hard rule: a record is an error exactly if its event
/// reports a failure, a warning exactly if its event is unclassified, and
/// routine otherwise, whatever the policy.
pub proof fn law_level_selection(event: EventView, policy: EmissionPolicy)
    ensures
        render_spec(event, policy).level == Level::Error <==> event.error() is Some,
        render_spec(event, policy).level == Level::Warn <==> event is Unknown,
        render_spec(event, policy).level == Level::Debug <==> !(event is Unknown) && event.error()
            is None,
{
}

/// A record carries an `error` field exactly if its event reports a
/// failure, and the field then holds the failure's text; such a record is
/// an error.
pub proof fn law_failure_is_recorded(event: EventView, policy: EmissionPolicy)
    ensures
        has_field(render_spec(event, policy).fields, "error"@) <==> event.error() is Some,
        event.error() matches Some(e) ==> {
            &&& field_value(render_spec(event, policy).fields, "error"@) == Some(
                FieldValueView::Text(e),
            )
            &&& render_spec(event, policy).level == Level::Error
        },
{
    lemma_field_names_differ();
    let fields = event_fields(event, policy);
    lemma_position_of(fields, "error"@);
    match event.error() {
        Some(e) => {
            assert(fields[0] == text_field("error"@, e));
        },
        None => {
            assert forall|i: int| 0 <= i < fields.len() implies (#[trigger] fields[i]).name
                != "error"@ by {}
        },
    }
}

/// The statement text of an execution or a cached statement is recorded in
/// the `statement` field exactly if the policy includes statement text;
/// otherwise the record has no such field.
pub proof fn law_statement_text_gate(event: EventView, policy: EmissionPolicy)
    requires
        event is QueryStart || event is QueryFinish || event is CacheStatement,
    ensures
        has_field(render_spec(event, policy).fields, "statement"@)
            <==> policy.include_statement_text,
        policy.include_statement_text ==> field_value(
            render_spec(event, policy).fields,
            "statement"@,
        ) == Some(
            FieldValueView::Text(
                match event {
                    EventView::QueryStart { statement } => statement,
                    EventView::QueryFinish { statement, .. } => statement,
                    EventView::CacheStatement { sql } => sql,
                    _ => Seq::empty(),
                },
            ),
        ),
{
    lemma_field_names_differ();
    let fields = event_fields(event, policy);
    lemma_position_of(fields, "statement"@);
    if policy.include_statement_text {
        let last = fields.len() - 1;
        assert(fields[last].name == "statement"@);
        assert forall|j: int| 0 <= j < last implies (#[trigger] fields[j]).name
            != "statement"@ by {}
    } else {
        assert forall|i: int| 0 <= i < fields.len() implies (#[trigger] fields[i]).name
            != "statement"@ by {}
    }
}

/// The locator of an establishment is recorded in the `target` field
/// exactly if the policy includes the locator; otherwise the record has no
/// such field.
pub proof fn law_target_gate(event: EventView, policy: EmissionPolicy)
    requires
        event is ConnectStart || event is ConnectFinish,
    ensures
        has_field(render_spec(event, policy).fields, "target"@) <==> policy.include_target,
        policy.include_target ==> field_value(render_spec(event, policy).fields, "target"@)
            == Some(
            FieldValueView::Text(
                match event {
                    EventView::ConnectStart { target } => target,
                    EventView::ConnectFinish { target, .. } => target,
                    _ => Seq::empty(),
                },
            ),
        ),
{
    lemma_field_names_differ();
    let fields = event_fields(event, policy);
    lemma_position_of(fields, "target"@);
    if policy.include_target {
        let last = fields.len() - 1;
        assert(fields[last].name == "target"@);
        assert forall|j: int| 0 <= j < last implies (#[trigger] fields[j]).name != "target"@ by {}
    } else {
        assert forall|i: int| 0 <= i < fields.len() implies (#[trigger] fields[i]).name
            != "target"@ by {}
    }
}

/// The fields of a record are a set in an order: each goes by one of the
/// names of the taxonomy, and no two go by the same name.
pub proof fn law_field_names_are_distinct(event: EventView, policy: EmissionPolicy)
    ensures
        distinct_names(event_fields(event, policy)),
        forall|i: int|
            0 <= i < event_fields(event, policy).len() ==> is_event_field(
                (#[trigger] event_fields(event, policy)[i]).name,
            ),
{
    lemma_field_names_differ();
}

/// Redaction omits, it does not mask: a record does not depend on a
/// payload that the policy withholds.
pub proof fn law_withheld_payload_is_absent(event: EventView, policy: EmissionPolicy)
    ensures
        render_spec(event, policy) == render_spec(redacted(event, policy), policy),
{
}

/// Only establishments carry a locator and only executions and cached
/// statements carry statement text: no other record has a gated field,
/// whatever the policy.
pub proof fn law_gated_fields_belong(event: EventView, policy: EmissionPolicy)
    ensures
        has_field(render_spec(event, policy).fields, "target"@) ==> event is ConnectStart
            || event is ConnectFinish,
        has_field(render_spec(event, policy).fields, "statement"@) ==> event is QueryStart
            || event is QueryFinish || event is CacheStatement,
{
    lemma_field_names_differ();
}

} // verus!
