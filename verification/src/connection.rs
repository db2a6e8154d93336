//! The decorator core that the instrumented connections share: the state
//! of an established connection, operations that are bracketed by a start
//! and a finish record, and establishment.

use vstd::prelude::*;
use vstd::string::StringExecFns;

use crate::event::{EventView, LifecycleEvent, failure_view};
use crate::identity::{
    Backend, base_identity, enrich, enriched, lemma_base_identity_is_proper,
    lemma_enrichment_keeps_event_fields, lemma_enrichment_keeps_names_distinct,
    lemma_first_field_stays, own_part, own_parts, proper_identity,
};
use crate::policy::EmissionPolicy;
use crate::record::{
    Field, FieldValueView, FieldView, Level, Record, RecordView, count_named, distinct_names,
    field_value, fields_view, has_field,
};
use crate::taxonomy::{
    event_fields, event_message, law_failure_is_recorded, law_field_names_are_distinct,
    law_statement_text_gate, law_target_gate, message_of, render, render_spec,
};
use crate::transaction::{
    Demarcation, TransactionDepth, accepts, boundary_event, depth_after, depth_past, fits,
    stack_discipline,
};

verus! {

/// The event that closes the operation that `opened` opens, with the given
/// outcome: `None` for success, the failure's display form otherwise.
pub open spec fn closing(opened: EventView, failure: Option<Seq<char>>) -> EventView {
    match opened {
        EventView::ConnectStart { target } => EventView::ConnectFinish { target, error: failure },
        EventView::QueryStart { statement } => EventView::QueryFinish {
            statement,
            error: failure,
        },
        _ => opened,
    }
}

/// An execution that has started and has not returned yet.
///
/// Only starting an execution makes one, and finishing the execution uses
/// it up, so that a finish record always follows the start record of the
/// same statement.
#[derive(Debug)]
pub struct PendingQuery {
    statement: String,
}

impl View for PendingQuery {
    type V = Seq<char>;

    closed spec fn view(&self) -> Seq<char> {
        self.statement@
    }
}

impl PendingQuery {
    /// The statement whose execution has started.
    pub fn statement(&self) -> (statement: &str)
        ensures
            statement@ == self@,
    {
        self.statement.as_str()
    }
}

/// What a decorator is, mathematically: its fixed policy, the identity of
/// its connection, and the number of open transactions.
pub struct DecoratorView {
    pub policy: EmissionPolicy,
    pub identity: Seq<FieldView>,
    pub depth: nat,
}

/// The state of an established instrumented connection.
#[derive(Debug)]
pub struct Decorator {
    policy: EmissionPolicy,
    identity: Vec<Field>,
    transactions: TransactionDepth,
}

impl View for Decorator {
    type V = DecoratorView;

    closed spec fn view(&self) -> DecoratorView {
        DecoratorView {
            policy: self.policy,
            identity: fields_view(self.identity@),
            depth: self.transactions@,
        }
    }
}

/// What can happen to an established connection: the wrapped connection
/// reports an event, or the caller asks for a transaction boundary.
pub enum Step {
    Reported(EventView),
    Requested(Demarcation),
}

/// The event that goes on record when a connection with `depth` open
/// transactions is told of `event`: the event itself if it fits the depth,
/// and otherwise an `Unknown` event that holds the line of the event, so
/// that a boundary that breaks the nesting is surfaced and not taken for one.
pub open spec fn admitted(depth: nat, event: EventView, policy: EmissionPolicy) -> EventView {
    if fits(depth, event) {
        event
    } else {
        EventView::Unknown { raw: event_message(event, policy) }
    }
}

impl DecoratorView {
    /// The record of `event` on this connection.
    pub open spec fn record_of(self, event: EventView) -> RecordView {
        enriched(render_spec(event, self.policy), self.identity)
    }

    /// The event that `step` puts on record, if it puts one. A reported
    /// event always does, as it is admitted; a request puts its boundary on
    /// record if it can be served.
    pub open spec fn records(self, step: Step) -> Option<EventView> {
        match step {
            Step::Reported(event) => Some(admitted(self.depth, event, self.policy)),
            Step::Requested(request) => if accepts(self.depth, request) {
                Some(boundary_event(self.depth, request))
            } else {
                None
            },
        }
    }

    /// The record that `step` emits, if it emits one: the record of the
    /// event that it puts on record.
    pub open spec fn emits(self, step: Step) -> Option<RecordView> {
        match self.records(step) {
            Some(event) => Some(self.record_of(event)),
            None => None,
        }
    }

    /// The connection after `step`. Only the transaction depth ever moves:
    /// with a reported boundary that fits, or with a request that can be
    /// served.
    pub open spec fn after(self, step: Step) -> DecoratorView {
        DecoratorView {
            policy: self.policy,
            identity: self.identity,
            depth: match step {
                Step::Reported(event) => if fits(self.depth, event) {
                    depth_past(self.depth, event)
                } else {
                    self.depth
                },
                Step::Requested(request) => if accepts(self.depth, request) {
                    depth_after(self.depth, request)
                } else {
                    self.depth
                },
            },
        }
    }
}

/// The value of an optional record.
pub open spec fn record_view(record: Option<Record>) -> Option<RecordView> {
    match record {
        Some(r) => Some(r@),
        None => None,
    }
}

/// The records of a run of steps that starts at `decorator`, in order.
pub open spec fn transcript(decorator: DecoratorView, steps: Seq<Step>) -> Seq<RecordView>
    decreases steps.len(),
{
    if steps.len() == 0 {
        Seq::empty()
    } else {
        let first = match decorator.emits(steps[0]) {
            Some(record) => seq![record],
            None => Seq::empty(),
        };
        first + transcript(decorator.after(steps[0]), steps.drop_first())
    }
}

/// The events that a run of steps that starts at `decorator` puts on
/// record, in order.
pub open spec fn recorded_events(decorator: DecoratorView, steps: Seq<Step>) -> Seq<EventView>
    decreases steps.len(),
{
    if steps.len() == 0 {
        Seq::empty()
    } else {
        let first = match decorator.records(steps[0]) {
            Some(event) => seq![event],
            None => Seq::empty(),
        };
        first + recorded_events(decorator.after(steps[0]), steps.drop_first())
    }
}

/// The connection after a run of steps that starts at `decorator`.
pub open spec fn after_all(decorator: DecoratorView, steps: Seq<Step>) -> DecoratorView
    decreases steps.len(),
{
    if steps.len() == 0 {
        decorator
    } else {
        after_all(decorator.after(steps[0]), steps.drop_first())
    }
}

impl Decorator {
    /// No identity field goes by the name of a field of an event or of
    /// another identity field, so that every field of a record is found
    /// under its name.
    #[verifier::type_invariant]
    spec fn identity_is_proper(&self) -> bool {
        proper_identity(fields_view(self.identity@))
    }

    /// The state of a connection that was just established: no transaction
    /// is open.
    pub(crate) fn new(policy: EmissionPolicy, identity: Vec<Field>) -> (decorator: Self)
        requires
            proper_identity(fields_view(identity@)),
        ensures
            decorator@ == (DecoratorView {
                policy,
                identity: fields_view(identity@),
                depth: 0,
            }),
    {
        Decorator { policy, identity, transactions: TransactionDepth::new() }
    }

    /// The redaction policy, fixed when the connection was established.
    pub fn policy(&self) -> (policy: EmissionPolicy)
        ensures
            policy == self@.policy,
    {
        self.policy
    }

    /// The identity fields that every record of this connection carries.
    /// None of them goes by the name of a field of an event or of another
    /// of them.
    pub fn identity(&self) -> (identity: &Vec<Field>)
        ensures
            fields_view(identity@) == self@.identity,
            proper_identity(self@.identity),
    {
        proof {
            use_type_invariant(self);
        }
        &self.identity
    }

    /// The number of open transactions.
    pub fn depth(&self) -> (depth: u32)
        ensures
            depth == self@.depth,
    {
        self.transactions.depth()
    }

    /// The record of an event that the wrapped connection reports. A
    /// transaction boundary that fits the current depth is recorded as it
    /// is and moves the depth. One that does not fit is recorded as an
    /// unclassified event that holds its line, and moves nothing. No event
    /// is dropped.
    pub(crate) fn observe(&mut self, event: &LifecycleEvent) -> (record: Record)
        ensures
            Some(record@) == old(self)@.emits(Step::Reported(event@)),
            final(self)@ == old(self)@.after(Step::Reported(event@)),
    {
        proof {
            use_type_invariant(&*self);
        }
        if self.transactions.follow(event) {
            enrich(render(event, self.policy), &self.identity)
        } else {
            let misfit = LifecycleEvent::Unknown { raw: message_of(event, self.policy) };
            enrich(render(&misfit, self.policy), &self.identity)
        }
    }

    /// Starts the execution of `statement`: the start record, and the token
    /// that finishing the execution takes.
    pub fn start_query(&self, statement: &str) -> (started: (PendingQuery, Record))
        ensures
            started.0@ == statement@,
            started.1@ == self@.record_of(EventView::QueryStart { statement: statement@ }),
    {
        let event = LifecycleEvent::query_start(statement);
        let record = enrich(render(&event, self.policy), &self.identity);
        (PendingQuery { statement: String::from_str(statement) }, record)
    }

    /// Finishes a started execution with its outcome, `None` for success
    /// and the failure's display form otherwise: the finish record of the
    /// statement that was started.
    pub fn finish_query(&self, pending: PendingQuery, failure: Option<&str>) -> (record: Record)
        ensures
            record@ == self@.record_of(
                closing(EventView::QueryStart { statement: pending@ }, failure_view(failure)),
            ),
            record@.level == if failure is Some {
                Level::Error
            } else {
                Level::Debug
            },
    {
        let event = LifecycleEvent::query_finish(pending.statement.as_str(), failure);
        enrich(render(&event, self.policy), &self.identity)
    }

    /// The record of a statement that entered the prepared statement
    /// cache. Caching has a single point of emission.
    pub fn cache_statement(&self, sql: &str) -> (record: Record)
        ensures
            record@ == self@.record_of(EventView::CacheStatement { sql: sql@ }),
    {
        let event = LifecycleEvent::CacheStatement { sql: String::from_str(sql) };
        enrich(render(&event, self.policy), &self.identity)
    }

    /// Opens or closes a transaction: the boundary record of the request,
    /// and the depth moves by one. A request that cannot be served has no
    /// record and changes nothing.
    pub(crate) fn demarcate(&mut self, request: Demarcation) -> (record: Option<Record>)
        ensures
            record_view(record) == old(self)@.emits(Step::Requested(request)),
            final(self)@ == old(self)@.after(Step::Requested(request)),
            record is Some <==> accepts(old(self)@.depth, request),
    {
        proof {
            use_type_invariant(&*self);
        }
        match self.transactions.demarcate(request) {
            Some(event) => Some(enrich(render(&event, self.policy), &self.identity)),
            None => None,
        }
    }
}

/// Why a connection could not be established. Either text is the display
/// form of the failure as the database client reported it.
#[derive(Clone, Debug, PartialEq, Eq)]
pub enum EstablishError {
    /// The physical connection could not be made.
    Connection(String),
    /// The physical connection was made, but the connection's identity
    /// could not be collected from the server.
    Setup(String),
}

/// The mathematical value of an [`EstablishError`].
pub enum EstablishErrorView {
    Connection(Seq<char>),
    Setup(Seq<char>),
}

impl EstablishErrorView {
    /// The display form of the failure.
    pub open spec fn text(self) -> Seq<char> {
        match self {
            EstablishErrorView::Connection(text) => text,
            EstablishErrorView::Setup(text) => text,
        }
    }
}

impl View for EstablishError {
    type V = EstablishErrorView;

    open spec fn view(&self) -> EstablishErrorView {
        match self {
            EstablishError::Connection(text) => EstablishErrorView::Connection(text@),
            EstablishError::Setup(text) => EstablishErrorView::Setup(text@),
        }
    }
}

impl EstablishError {
    /// The display form of the failure.
    pub fn text(&self) -> (text: &str)
        ensures
            text@ == self@.text(),
    {
        match self {
            EstablishError::Connection(text) => text.as_str(),
            EstablishError::Setup(text) => text.as_str(),
        }
    }
}

/// What an establishment in progress is, mathematically.
pub struct EstablishingView {
    pub policy: EmissionPolicy,
    pub target: Seq<char>,
    pub identity: Seq<FieldView>,
}

/// An establishment that has started and has not ended yet.
///
/// Only starting an establishment makes one, and either way of ending it
/// uses it up, so that one finish record follows one start record for the
/// same locator.
#[derive(Debug)]
pub struct Establishing {
    policy: EmissionPolicy,
    target: String,
    identity: Vec<Field>,
}

impl View for Establishing {
    type V = EstablishingView;

    closed spec fn view(&self) -> EstablishingView {
        EstablishingView {
            policy: self.policy,
            target: self.target@,
            identity: fields_view(self.identity@),
        }
    }
}

impl EstablishingView {
    /// The record that opens this establishment.
    pub open spec fn start_record(self) -> RecordView {
        enriched(
            render_spec(EventView::ConnectStart { target: self.target }, self.policy),
            self.identity,
        )
    }

    /// The record that closes this establishment with the given outcome on
    /// a connection of the given identity.
    pub open spec fn finish_record(
        self,
        failure: Option<Seq<char>>,
        identity: Seq<FieldView>,
    ) -> RecordView {
        enriched(
            render_spec(
                closing(EventView::ConnectStart { target: self.target }, failure),
                self.policy,
            ),
            identity,
        )
    }
}

/// The records of one establishment, in emission order: the start record,
/// and the finish record of the outcome.
pub open spec fn establishment_records(
    pending: EstablishingView,
    failure: Option<Seq<char>>,
    identity: Seq<FieldView>,
) -> Seq<RecordView> {
    seq![pending.start_record(), pending.finish_record(failure, identity)]
}

/// The records of one execution, in emission order: the start record, and
/// the finish record of the outcome.
pub open spec fn execution_records(
    decorator: DecoratorView,
    statement: Seq<char>,
    failure: Option<Seq<char>>,
) -> Seq<RecordView> {
    seq![
        decorator.record_of(EventView::QueryStart { statement }),
        decorator.record_of(closing(EventView::QueryStart { statement }, failure)),
    ]
}

impl Establishing {
    /// No identity field goes by the name of a field of an event or of
    /// another identity field.
    #[verifier::type_invariant]
    spec fn identity_is_proper(&self) -> bool {
        proper_identity(fields_view(self.identity@))
    }

    /// Starts to establish a connection to `target` under `policy`: the
    /// start record, and the token that ending the establishment takes.
    /// `identity` is what is known of the connection before it exists.
    pub(crate) fn begin(
        policy: EmissionPolicy,
        target: &str,
        identity: Vec<Field>,
    ) -> (begun: (Establishing, Record))
        requires
            proper_identity(fields_view(identity@)),
        ensures
            begun.0@ == (EstablishingView {
                policy,
                target: target@,
                identity: fields_view(identity@),
            }),
            begun.1@ == begun.0@.start_record(),
            begun.1@.level == Level::Debug,
    {
        let event = LifecycleEvent::connect_start(target);
        let record = enrich(render(&event, policy), &identity);
        (Establishing { policy, target: String::from_str(target), identity }, record)
    }

    /// Starts to establish a connection to a database system that needs
    /// no probe.
    pub(crate) fn begin_for(
        backend: Backend,
        policy: EmissionPolicy,
        target: &str,
    ) -> (begun: (Establishing, Record))
        ensures
            begun.0@ == (EstablishingView { policy, target: target@, identity: base_identity(backend) }),
            begun.1@ == begun.0@.start_record(),
    {
        proof {
            lemma_base_identity_is_proper(backend);
        }
        Establishing::begin(policy, target, backend.identity())
    }

    /// Ends the establishment of a connection to a database system that
    /// needs no probe, with the outcome of connecting: `None` for success
    /// and the failure's display form otherwise. The connection comes to
    /// be exactly on success; the finish record reports the outcome either
    /// way.
    pub(crate) fn conclude(
        self,
        backend: Backend,
        failure: Option<&str>,
    ) -> (ended: (Result<Decorator, EstablishError>, Record))
        ensures
            match ended.0 {
                Ok(decorator) => {
                    &&& failure is None
                    &&& decorator@ == (DecoratorView {
                        policy: self@.policy,
                        identity: base_identity(backend),
                        depth: 0,
                    })
                    &&& ended.1@ == self@.finish_record(None, base_identity(backend))
                    &&& ended.1@.level == Level::Debug
                },
                Err(error) => {
                    &&& failure matches Some(text)
                    &&& error@ == EstablishErrorView::Connection(text@)
                    &&& ended.1@ == self@.finish_record(Some(text@), self@.identity)
                    &&& ended.1@.level == Level::Error
                },
            },
    {
        match failure {
            Some(text) => {
                let error = EstablishError::Connection(String::from_str(text));
                let record = self.fail(&error);
                (Err(error), record)
            },
            None => {
                proof {
                    lemma_base_identity_is_proper(backend);
                }
                let (decorator, record) = self.complete(backend.identity());
                (Ok(decorator), record)
            },
        }
    }

    /// Ends the establishment as failed: the finish record, which is an
    /// error and carries the failure's text. No connection comes to be.
    pub(crate) fn fail(self, error: &EstablishError) -> (record: Record)
        ensures
            record@ == self@.finish_record(Some(error@.text()), self@.identity),
            record@.level == Level::Error,
            field_value(record@.fields, "error"@) == Some(FieldValueView::Text(error@.text())),
    {
        let event = LifecycleEvent::connect_finish(self.target.as_str(), Some(error.text()));
        proof {
            law_failure_is_recorded(event@, self.policy);
            lemma_first_field_stays(
                render_spec(event@, self.policy).fields,
                fields_view(self.identity@),
                "error"@,
            );
        }
        enrich(render(&event, self.policy), &self.identity)
    }

    /// Ends the establishment as successful: the state of the connection,
    /// which has `identity` and no open transaction, and the finish record,
    /// which is routine and carries that identity.
    pub(crate) fn complete(self, identity: Vec<Field>) -> (done: (Decorator, Record))
        requires
            proper_identity(fields_view(identity@)),
        ensures
            done.0@ == (DecoratorView {
                policy: self@.policy,
                identity: fields_view(identity@),
                depth: 0,
            }),
            done.1@ == self@.finish_record(None, fields_view(identity@)),
            done.1@.level == Level::Debug,
    {
        let event = LifecycleEvent::connect_finish(self.target.as_str(), None);
        let record = enrich(render(&event, self.policy), &identity);
        (Decorator::new(self.policy, identity), record)
    }
}

/// Among two records, as many go by a name as have it.
proof fn lemma_count_of_a_pair(records: Seq<RecordView>, name: Seq<char>)
    requires
        records.len() == 2,
    ensures
        count_named(records, name) == (if records[0].name == name {
            1nat
        } else {
            0nat
        }) + (if records[1].name == name {
            1nat
        } else {
            0nat
        }),
{
    let rest = records.drop_first();
    assert(rest[0] == records[1]);
    assert(rest.drop_first().len() == 0);
    assert(count_named(rest.drop_first(), name) == 0);
    assert(count_named(rest, name) == (if rest[0].name == name {
        1nat
    } else {
        0nat
    }) + count_named(rest.drop_first(), name));
}

/// An establishment is bracketed by exactly one start record and one
/// finish record for the same locator. The start record reports no
/// failure. The finish record of a success is routine and reports no
/// failure; the finish record of a failure is an error and carries the
/// failure's text. Both show the locator exactly if the policy includes it.
pub proof fn law_establishment_is_bracketed(
    pending: EstablishingView,
    failure: Option<Seq<char>>,
    identity: Seq<FieldView>,
)
    requires
        proper_identity(pending.identity),
        proper_identity(identity),
    ensures
        establishment_records(pending, failure, identity).len() == 2,
        establishment_records(pending, failure, identity)[0].name == "StartEstablishConnection"@,
        establishment_records(pending, failure, identity)[1].name == "FinishEstablishConnection"@,
        count_named(
            establishment_records(pending, failure, identity),
            "StartEstablishConnection"@,
        ) == 1,
        count_named(
            establishment_records(pending, failure, identity),
            "FinishEstablishConnection"@,
        ) == 1,
        pending.start_record().level == Level::Debug,
        !has_field(pending.start_record().fields, "error"@),
        failure is None ==> {
            &&& pending.finish_record(failure, identity).level == Level::Debug
            &&& !has_field(pending.finish_record(failure, identity).fields, "error"@)
        },
        failure matches Some(text) ==> {
            &&& pending.finish_record(failure, identity).level == Level::Error
            &&& field_value(pending.finish_record(failure, identity).fields, "error"@) == Some(
                FieldValueView::Text(text),
            )
        },
        has_field(pending.start_record().fields, "target"@) <==> pending.policy.include_target,
        has_field(pending.finish_record(failure, identity).fields, "target"@)
            <==> pending.policy.include_target,
        pending.policy.include_target ==> {
            &&& field_value(pending.start_record().fields, "target"@) == Some(
                FieldValueView::Text(pending.target),
            )
            &&& field_value(pending.finish_record(failure, identity).fields, "target"@) == Some(
                FieldValueView::Text(pending.target),
            )
        },
{
    reveal_strlit("StartEstablishConnection");
    reveal_strlit("FinishEstablishConnection");
    assert("StartEstablishConnection"@.len() == 24);
    assert("FinishEstablishConnection"@.len() == 25);
    lemma_count_of_a_pair(
        establishment_records(pending, failure, identity),
        "StartEstablishConnection"@,
    );
    lemma_count_of_a_pair(
        establishment_records(pending, failure, identity),
        "FinishEstablishConnection"@,
    );
    let start = EventView::ConnectStart { target: pending.target };
    let finish = closing(start, failure);
    law_failure_is_recorded(start, pending.policy);
    law_failure_is_recorded(finish, pending.policy);
    law_target_gate(start, pending.policy);
    law_target_gate(finish, pending.policy);
    lemma_enrichment_keeps_event_fields(
        event_fields(start, pending.policy),
        pending.identity,
        "error"@,
    );
    lemma_enrichment_keeps_event_fields(
        event_fields(start, pending.policy),
        pending.identity,
        "target"@,
    );
    lemma_enrichment_keeps_event_fields(event_fields(finish, pending.policy), identity, "error"@);
    lemma_enrichment_keeps_event_fields(event_fields(finish, pending.policy), identity, "target"@);
}

/// An execution is bracketed by a start record and a finish record for the
/// same statement. Both carry the statement text in their `statement` field
/// exactly if the policy includes statement text, and have no such field
/// otherwise. The start record reports no failure; the finish record is an
/// error with the failure's text exactly if the execution failed.
pub proof fn law_execution_is_bracketed(
    decorator: DecoratorView,
    statement: Seq<char>,
    failure: Option<Seq<char>>,
)
    requires
        proper_identity(decorator.identity),
    ensures
        ({
            let start = decorator.record_of(EventView::QueryStart { statement });
            let finish = decorator.record_of(
                closing(EventView::QueryStart { statement }, failure),
            );
            &&& execution_records(decorator, statement, failure) == seq![start, finish]
            &&& start.name == "StartedQuery"@
            &&& finish.name == "FinishQuery"@
            &&& count_named(execution_records(decorator, statement, failure), "StartedQuery"@) == 1
            &&& count_named(execution_records(decorator, statement, failure), "FinishQuery"@) == 1
            &&& has_field(start.fields, "statement"@) <==> decorator.policy.include_statement_text
            &&& has_field(finish.fields, "statement"@) <==> decorator.policy.include_statement_text
            &&& decorator.policy.include_statement_text ==> {
                &&& field_value(start.fields, "statement"@) == Some(
                    FieldValueView::Text(statement),
                )
                &&& field_value(finish.fields, "statement"@) == Some(
                    FieldValueView::Text(statement),
                )
            }
            &&& start.level == Level::Debug
            &&& !has_field(start.fields, "error"@)
            &&& has_field(finish.fields, "error"@) <==> failure is Some
            &&& finish.level == Level::Error <==> failure is Some
            &&& failure matches Some(text) ==> field_value(finish.fields, "error"@) == Some(
                FieldValueView::Text(text),
            )
        }),
{
    reveal_strlit("StartedQuery");
    reveal_strlit("FinishQuery");
    assert("StartedQuery"@.len() == 12);
    assert("FinishQuery"@.len() == 11);
    lemma_count_of_a_pair(execution_records(decorator, statement, failure), "StartedQuery"@);
    lemma_count_of_a_pair(execution_records(decorator, statement, failure), "FinishQuery"@);
    let policy = decorator.policy;
    let start = EventView::QueryStart { statement };
    let finish = closing(start, failure);
    law_failure_is_recorded(start, policy);
    law_failure_is_recorded(finish, policy);
    law_statement_text_gate(start, policy);
    law_statement_text_gate(finish, policy);
    lemma_enrichment_keeps_event_fields(event_fields(start, policy), decorator.identity, "error"@);
    lemma_enrichment_keeps_event_fields(
        event_fields(start, policy),
        decorator.identity,
        "statement"@,
    );
    lemma_enrichment_keeps_event_fields(event_fields(finish, policy), decorator.identity, "error"@);
    lemma_enrichment_keeps_event_fields(
        event_fields(finish, policy),
        decorator.identity,
        "statement"@,
    );
}

/// The fields of every record of a connection are a set in an order: no
/// two of them, the event's own or the connection's, go by the same name.
pub proof fn law_record_fields_are_a_set(decorator: DecoratorView, event: EventView)
    requires
        proper_identity(decorator.identity),
    ensures
        distinct_names(decorator.record_of(event).fields),
{
    law_field_names_are_distinct(event, decorator.policy);
    lemma_enrichment_keeps_names_distinct(
        event_fields(event, decorator.policy),
        decorator.identity,
    );
}

/// The own part of the record of an event is what the event is rendered
/// to under the policy.
pub proof fn lemma_own_part_is_the_rendering(decorator: DecoratorView, event: EventView)
    ensures
        own_part(decorator.record_of(event), decorator.identity) == render_spec(
            event,
            decorator.policy,
        ),
{
    let own = event_fields(event, decorator.policy);
    assert((own + decorator.identity).take(own.len() as int) =~= own);
}

/// The transaction boundaries on record form a stack, whatever is reported
/// and whatever is requested: each opening on record names the level above
/// the one before, each closing names the innermost open level, and depths
/// never fall below zero or skip a level. Every record of the run is the
/// record of the event that stands at its place.
pub proof fn law_recorded_boundaries_form_a_stack(decorator: DecoratorView, steps: Seq<Step>)
    ensures
        stack_discipline(decorator.depth, recorded_events(decorator, steps)),
        transcript(decorator, steps).len() == recorded_events(decorator, steps).len(),
        forall|i: int|
            0 <= i < recorded_events(decorator, steps).len() ==> (#[trigger] transcript(
                decorator,
                steps,
            )[i]) == decorator.record_of(recorded_events(decorator, steps)[i]),
    decreases steps.len(),
{
    if steps.len() > 0 {
        let next = decorator.after(steps[0]);
        let rest = steps.drop_first();
        law_recorded_boundaries_form_a_stack(next, rest);
        let events = recorded_events(decorator, steps);
        let records = transcript(decorator, steps);
        match decorator.records(steps[0]) {
            Some(event) => {
                assert(events[0] == event);
                assert(events.drop_first() =~= recorded_events(next, rest));
                assert forall|i: int| 0 <= i < events.len() implies (#[trigger] records[i])
                    == decorator.record_of(events[i]) by {
                    if i > 0 {
                        assert(records[i] == transcript(next, rest)[i - 1]);
                        assert(events[i] == recorded_events(next, rest)[i - 1]);
                    }
                }
            },
            None => {
                assert(events =~= recorded_events(next, rest));
                assert(records =~= transcript(next, rest));
            },
        }
    }
}

/// Whatever happens to a connection, its policy and its identity stay as
/// they were when it was established.
pub proof fn law_policy_and_identity_are_fixed(decorator: DecoratorView, steps: Seq<Step>)
    ensures
        after_all(decorator, steps).policy == decorator.policy,
        after_all(decorator, steps).identity == decorator.identity,
    decreases steps.len(),
{
    if steps.len() > 0 {
        law_policy_and_identity_are_fixed(decorator.after(steps[0]), steps.drop_first());
    }
}

/// Records are a function of the policy, the identity and what happens,
/// and of nothing else: two connections made with the same policy emit, for
/// the same run of steps, records that are equal but for the identity of the
/// connection, and equal altogether if the identities are equal.
pub proof fn law_same_policy_same_records(a: DecoratorView, b: DecoratorView, steps: Seq<Step>)
    requires
        a.policy == b.policy,
        a.depth == b.depth,
    ensures
        transcript(a, steps).len() == transcript(b, steps).len(),
        own_parts(transcript(a, steps), a.identity) == own_parts(transcript(b, steps), b.identity),
        a.identity == b.identity ==> transcript(a, steps) == transcript(b, steps),
        after_all(a, steps).depth == after_all(b, steps).depth,
    decreases steps.len(),
{
    if steps.len() == 0 {
        assert(own_parts(transcript(a, steps), a.identity) =~= own_parts(
            transcript(b, steps),
            b.identity,
        ));
    } else {
        let rest = steps.drop_first();
        law_same_policy_same_records(a.after(steps[0]), b.after(steps[0]), rest);
        let tail_a = transcript(a.after(steps[0]), rest);
        let tail_b = transcript(b.after(steps[0]), rest);
        match a.emits(steps[0]) {
            Some(of_a) => {
                let of_b = b.emits(steps[0]).unwrap();
                let event = a.records(steps[0]).unwrap();
                lemma_own_part_is_the_rendering(a, event);
                lemma_own_part_is_the_rendering(b, event);
                assert(own_part(of_a, a.identity) == own_part(of_b, b.identity));
                assert(own_parts(seq![of_a] + tail_a, a.identity) =~= seq![
                    own_part(of_a, a.identity),
                ] + own_parts(tail_a, a.identity));
                assert(own_parts(seq![of_b] + tail_b, b.identity) =~= seq![
                    own_part(of_b, b.identity),
                ] + own_parts(tail_b, b.identity));
            },
            None => {
                assert(Seq::<RecordView>::empty() + tail_a =~= tail_a);
                assert(Seq::<RecordView>::empty() + tail_b =~= tail_b);
            },
        }
    }
}

} // verus!
