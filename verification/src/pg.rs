//! The instrumented connection to a PostgreSQL server, which learns the
//! identity of its server once, when it is established.

use vstd::prelude::*;

use crate::connection::{
    Decorator, DecoratorView, EstablishError, EstablishErrorView, Establishing, EstablishingView,
    Step, record_view,
};
use crate::event::LifecycleEvent;
use crate::identity::{
    Backend, lemma_identity_names_are_reserved, lemma_identity_names_differ, proper_identity,
    system_name,
};
use crate::policy::EmissionPolicy;
use crate::record::{Field, FieldValueView, FieldView, Level, Record, fields_view};
use crate::taxonomy::{integer_field, text_field};
use crate::transaction::{Demarcation, accepts};

verus! {

/// A network address as `ipnetwork` holds it. Nothing of its inside is
/// visible here; it is carried from the probe to the records.
#[verifier::external_type_specification]
#[verifier::external_body]
pub struct ExIpNetwork(ipnetwork::IpNetwork);

/// The display form of a network address: what `ipnetwork` prints for it,
/// the address and the prefix length in CIDR notation.
pub uninterp spec fn network_text(address: ipnetwork::IpNetwork) -> Seq<char>;

/// The display form of `address`.
///
/// Calls `ipnetwork`'s `Display` for `IpNetwork` through `to_string`. The
/// text is a function of the address alone: the implementation prints the
/// address and the prefix of the value and reads nothing else.
#[verifier::external_body]
fn address_text(address: &ipnetwork::IpNetwork) -> (text: String)
    ensures
        text@ == network_text(*address),
{
    address.to_string()
}

/// What the server says of itself, captured once at establishment.
#[derive(Debug)]
pub struct PgConnectionInfo {
    /// The name of the current database.
    pub current_database: String,
    /// The address the server accepted the connection on.
    pub inet_server_addr: ipnetwork::IpNetwork,
    /// The port the server accepted the connection on.
    pub inet_server_port: i32,
    /// The server's version string.
    pub version: String,
}

/// The mathematical value of a [`PgConnectionInfo`]. The server's address
/// stands in it in its display form.
pub struct PgConnectionInfoView {
    pub current_database: Seq<char>,
    pub inet_server_addr: Seq<char>,
    pub inet_server_port: int,
    pub version: Seq<char>,
}

impl View for PgConnectionInfo {
    type V = PgConnectionInfoView;

    open spec fn view(&self) -> PgConnectionInfoView {
        PgConnectionInfoView {
            current_database: self.current_database@,
            inet_server_addr: network_text(self.inet_server_addr),
            inet_server_port: self.inet_server_port as int,
            version: self.version@,
        }
    }
}

/// A field whose value is not available yet.
pub open spec fn empty_field(name: Seq<char>) -> FieldView {
    FieldView { name, value: FieldValueView::Empty }
}

/// The identity of a connection whose server has not answered the probe
/// yet: what the server would tell is marked as not available.
pub open spec fn pending_identity() -> Seq<FieldView> {
    seq![
        empty_field("db.name"@),
        text_field("db.system"@, system_name(Backend::Postgres)),
        empty_field("db.version"@),
        text_field("otel.kind"@, "client"@),
        empty_field("net.peer.ip"@),
        empty_field("net.peer.port"@),
    ]
}

/// The identity of a connection whose server answered the probe with
/// `info`.
pub open spec fn identity_of(info: PgConnectionInfoView) -> Seq<FieldView> {
    seq![
        text_field("db.name"@, info.current_database),
        text_field("db.system"@, system_name(Backend::Postgres)),
        text_field("db.version"@, info.version),
        text_field("otel.kind"@, "client"@),
        text_field("net.peer.ip"@, info.inet_server_addr),
        integer_field("net.peer.port"@, info.inet_server_port),
    ]
}

/// The identity of a PostgreSQL connection before the probe is proper.
pub proof fn lemma_pending_identity_is_proper()
    ensures
        proper_identity(pending_identity()),
{
    lemma_identity_names_are_reserved();
    lemma_identity_names_differ();
}

/// The identity of a PostgreSQL connection after the probe is proper.
pub proof fn lemma_identity_is_proper(info: PgConnectionInfoView)
    ensures
        proper_identity(identity_of(info)),
{
    lemma_identity_names_are_reserved();
    lemma_identity_names_differ();
}

/// The statement of the probe: one round trip that asks the server for the
/// current database, its address, its port and its version.
pub open spec fn probe_statement() -> Seq<char> {
    "SELECT current_database(), inet_server_addr(), inet_server_port(), version()"@
}

/// The statement of the probe that is issued once, right after the
/// physical connection is made.
pub fn probe_query() -> (statement: &'static str)
    ensures
        statement@ == probe_statement(),
{
    "SELECT current_database(), inet_server_addr(), inet_server_port(), version()"
}

/// How the two steps of establishing a connection went: making the
/// physical connection, and then probing the server for its identity.
#[derive(Debug)]
pub enum Handshake {
    /// The physical connection could not be made; the probe was not tried.
    Refused(String),
    /// The physical connection was made and the probe failed.
    ProbeFailed(String),
    /// The physical connection was made and the server answered the probe.
    Identified(PgConnectionInfo),
}

/// The state of an established, instrumented PostgreSQL connection.
#[derive(Debug)]
pub struct InstrumentedPgConnection {
    decorator: Decorator,
    info: PgConnectionInfo,
}

/// What an instrumented PostgreSQL connection is, mathematically: the
/// state of its decorator, and what its server said of itself.
pub struct PgConnectionView {
    pub decorator: DecoratorView,
    pub server: PgConnectionInfoView,
}

impl View for InstrumentedPgConnection {
    type V = PgConnectionView;

    closed spec fn view(&self) -> PgConnectionView {
        PgConnectionView { decorator: self.decorator@, server: self.info@ }
    }
}

impl InstrumentedPgConnection {
    /// The identity fields of a connection whose server has not answered
    /// the probe yet.
    pub fn unresolved_identity() -> (identity: Vec<Field>)
        ensures
            fields_view(identity@) == pending_identity(),
    {
        let mut identity: Vec<Field> = Vec::new();
        identity.push(Field::empty("db.name"));
        identity.push(Field::text("db.system", Backend::Postgres.system()));
        identity.push(Field::empty("db.version"));
        identity.push(Field::text("otel.kind", "client"));
        identity.push(Field::empty("net.peer.ip"));
        identity.push(Field::empty("net.peer.port"));
        assert(fields_view(identity@) =~= pending_identity());
        identity
    }

    /// The identity fields of a connection whose server answered the probe
    /// with `info`.
    pub fn resolved_identity(info: &PgConnectionInfo) -> (identity: Vec<Field>)
        ensures
            fields_view(identity@) == identity_of(info@),
    {
        let mut identity: Vec<Field> = Vec::new();
        identity.push(Field::text("db.name", info.current_database.as_str()));
        identity.push(Field::text("db.system", Backend::Postgres.system()));
        identity.push(Field::text("db.version", info.version.as_str()));
        identity.push(Field::text("otel.kind", "client"));
        let address = address_text(&info.inet_server_addr);
        identity.push(Field::text("net.peer.ip", address.as_str()));
        identity.push(Field::integer("net.peer.port", info.inet_server_port as i64));
        assert(fields_view(identity@) =~= identity_of(info@));
        identity
    }

    /// Starts to establish a connection to `database_url`: the start
    /// record, and the token that `establish` takes. Until the server has
    /// answered the probe, records mark its identity as not available.
    pub fn begin_establish(
        database_url: &str,
        policy: EmissionPolicy,
    ) -> (begun: (Establishing, Record))
        ensures
            begun.0@ == (EstablishingView {
                policy,
                target: database_url@,
                identity: pending_identity(),
            }),
            begun.1@ == begun.0@.start_record(),
    {
        proof {
            lemma_pending_identity_is_proper();
        }
        Establishing::begin(policy, database_url, Self::unresolved_identity())
    }

    /// Ends the establishment with the outcome of connecting and probing.
    ///
    /// The connection comes to be exactly if the server answered the probe,
    /// and then carries the answer in every record. A refused connection is
    /// a connection error; a failed probe is a setup error, since the
    /// physical connection was made. The finish record reports the outcome
    /// either way.
    pub fn establish(
        pending: Establishing,
        handshake: Handshake,
    ) -> (ended: (Result<InstrumentedPgConnection, EstablishError>, Record))
        ensures
            match ended.0 {
                Ok(connection) => {
                    &&& handshake matches Handshake::Identified(info)
                    &&& connection@.server == info@
                    &&& connection@.decorator == (DecoratorView {
                        policy: pending@.policy,
                        identity: identity_of(info@),
                        depth: 0,
                    })
                    &&& ended.1@ == pending@.finish_record(None, identity_of(info@))
                    &&& ended.1@.level == Level::Debug
                },
                Err(error) => {
                    &&& match handshake {
                        Handshake::Refused(text) => error@ == EstablishErrorView::Connection(text@),
                        Handshake::ProbeFailed(text) => error@ == EstablishErrorView::Setup(text@),
                        Handshake::Identified(_) => false,
                    }
                    &&& ended.1@ == pending@.finish_record(Some(error@.text()), pending@.identity)
                    &&& ended.1@.level == Level::Error
                },
            },
    {
        match handshake {
            Handshake::Refused(text) => {
                let error = EstablishError::Connection(text);
                let record = pending.fail(&error);
                (Err(error), record)
            },
            Handshake::ProbeFailed(text) => {
                let error = EstablishError::Setup(text);
                let record = pending.fail(&error);
                (Err(error), record)
            },
            Handshake::Identified(info) => {
                proof {
                    lemma_identity_is_proper(info@);
                }
                let (decorator, record) = pending.complete(Self::resolved_identity(&info));
                (Ok(InstrumentedPgConnection { decorator, info }), record)
            },
        }
    }

    /// What the server said of itself when the connection was established.
    pub fn info(&self) -> (info: &PgConnectionInfo)
        ensures
            info@ == self@.server,
    {
        &self.info
    }

    /// The decorator core of this connection.
    pub fn decorator(&self) -> (decorator: &Decorator)
        ensures
            decorator@ == self@.decorator,
    {
        &self.decorator
    }

    /// The record of an event that the wrapped connection reports. A
    /// transaction boundary that fits the current depth is recorded as it
    /// is and moves the depth. One that does not fit is recorded as an
    /// unclassified event that holds its line, and moves nothing. No event
    /// is dropped, and what the server said stays as it is.
    pub fn observe(&mut self, event: &LifecycleEvent) -> (record: Record)
        ensures
            Some(record@) == old(self)@.decorator.emits(Step::Reported(event@)),
            final(self)@.decorator == old(self)@.decorator.after(Step::Reported(event@)),
            final(self)@.server == old(self)@.server,
    {
        self.decorator.observe(event)
    }

    /// Opens or closes a transaction: the boundary record of the request,
    /// and the depth moves by one. A request that cannot be served has no
    /// record and changes nothing. What the server said stays as it is.
    pub fn demarcate(&mut self, request: Demarcation) -> (record: Option<Record>)
        ensures
            record_view(record) == old(self)@.decorator.emits(Step::Requested(request)),
            final(self)@.decorator == old(self)@.decorator.after(Step::Requested(request)),
            final(self)@.server == old(self)@.server,
            record is Some <==> accepts(old(self)@.decorator.depth, request),
    {
        self.decorator.demarcate(request)
    }
}

} // verus!
