//! The identity of a connection: the fields that every record of the
//! connection carries after the fields of its event.

use vstd::prelude::*;

use crate::record::{
    Field, FieldView, Record, RecordView, distinct_names, field_value, fields_view, has_field,
    lemma_position_of, position_of,
};
use crate::taxonomy::{is_event_field, text_field};

verus! {

/// The database systems whose connections can be instrumented.
#[derive(Clone, Copy, Debug, PartialEq, Eq, Structural)]
pub enum Backend {
    Postgres,
    Mysql,
    Sqlite,
}

/// The name under which records identify a database system.
pub open spec fn system_name(backend: Backend) -> Seq<char> {
    match backend {
        Backend::Postgres => "postgresql"@,
        Backend::Mysql => "mysql"@,
        Backend::Sqlite => "sqlite"@,
    }
}

/// The identity that a connection has without asking its server: the
/// database system and the role of this side.
pub open spec fn base_identity(backend: Backend) -> Seq<FieldView> {
    seq![text_field("db.system"@, system_name(backend)), text_field("otel.kind"@, "client"@)]
}

impl Backend {
    /// The name under which records identify this database system.
    pub fn system(&self) -> (name: &'static str)
        ensures
            name@ == system_name(*self),
    {
        match self {
            Backend::Postgres => "postgresql",
            Backend::Mysql => "mysql",
            Backend::Sqlite => "sqlite",
        }
    }

    /// The identity fields of a connection to this database system that
    /// need no probe.
    pub fn identity(&self) -> (identity: Vec<Field>)
        ensures
            fields_view(identity@) == base_identity(*self),
    {
        let mut identity: Vec<Field> = Vec::new();
        identity.push(Field::text("db.system", self.system()));
        identity.push(Field::text("otel.kind", "client"));
        assert(fields_view(identity@) =~= base_identity(*self));
        identity
    }
}

/// `record` with the identity of its connection after its own fields.
pub open spec fn enriched(record: RecordView, identity: Seq<FieldView>) -> RecordView {
    RecordView {
        name: record.name,
        level: record.level,
        message: record.message,
        fields: record.fields + identity,
    }
}

/// Appends the identity of a connection to the fields of `record`.
pub fn enrich(record: Record, identity: &Vec<Field>) -> (whole: Record)
    ensures
        whole@ == enriched(record@, fields_view(identity@)),
{
    let Record { name, level, message, fields } = record;
    let mut fields = fields;
    let ghost own = fields_view(fields@);
    let mut i: usize = 0;
    while i < identity.len()
        invariant
            0 <= i <= identity.len(),
            fields_view(fields@) == own + fields_view(identity@).take(i as int),
        decreases identity.len() - i,
    {
        let ghost done = fields_view(fields@);
        fields.push(identity[i].duplicate());
        assert(fields_view(fields@) =~= done.push(identity@[i as int]@));
        assert(fields_view(identity@).take(i as int + 1) =~= fields_view(identity@).take(
            i as int,
        ).push(identity@[i as int]@));
        assert(own + fields_view(identity@).take(i as int + 1) =~= (own + fields_view(
            identity@,
        ).take(i as int)).push(identity@[i as int]@));
        i += 1;
    }
    assert(fields_view(identity@).take(i as int) =~= fields_view(identity@));
    Record { name, level, message, fields }
}

/// The part of a record that is the event's own: the record without the
/// identity of its connection.
pub open spec fn own_part(record: RecordView, identity: Seq<FieldView>) -> RecordView {
    RecordView {
        name: record.name,
        level: record.level,
        message: record.message,
        fields: record.fields.take(record.fields.len() - identity.len()),
    }
}

/// The own parts of a run of records of one connection.
pub open spec fn own_parts(records: Seq<RecordView>, identity: Seq<FieldView>) -> Seq<RecordView> {
    records.map_values(|record: RecordView| own_part(record, identity))
}

/// A field that a record has keeps its place and its value when the
/// identity of the connection is appended.
pub proof fn lemma_first_field_stays(own: Seq<FieldView>, identity: Seq<FieldView>, name: Seq<char>)
    requires
        has_field(own, name),
    ensures
        has_field(own + identity, name),
        field_value(own + identity, name) == field_value(own, name),
{
    lemma_position_of(own, name);
    let i = position_of(own, name).unwrap();
    let whole = own + identity;
    assert(whole[i] == own[i]);
    assert forall|j: int| 0 <= j < i implies (#[trigger] whole[j]).name != name by {
        assert(whole[j] == own[j]);
    }
    lemma_position_of(whole, name);
}

/// Whether no field of `identity` goes by the name of a field of an event.
pub open spec fn reserved(identity: Seq<FieldView>) -> bool {
    forall|i: int| 0 <= i < identity.len() ==> !is_event_field((#[trigger] identity[i]).name)
}

/// Whether `identity` can follow the fields of any event in a record: it
/// is reserved, and no two of its fields go by the same name.
pub open spec fn proper_identity(identity: Seq<FieldView>) -> bool {
    reserved(identity) && distinct_names(identity)
}

/// The names of the identity fields are pairwise different.
pub proof fn lemma_identity_names_differ()
    ensures
        "db.name"@ != "db.system"@,
        "db.name"@ != "db.version"@,
        "db.name"@ != "otel.kind"@,
        "db.name"@ != "net.peer.ip"@,
        "db.name"@ != "net.peer.port"@,
        "db.system"@ != "db.version"@,
        "db.system"@ != "otel.kind"@,
        "db.system"@ != "net.peer.ip"@,
        "db.system"@ != "net.peer.port"@,
        "db.version"@ != "otel.kind"@,
        "db.version"@ != "net.peer.ip"@,
        "db.version"@ != "net.peer.port"@,
        "otel.kind"@ != "net.peer.ip"@,
        "otel.kind"@ != "net.peer.port"@,
        "net.peer.ip"@ != "net.peer.port"@,
{
    reveal_strlit("db.name");
    reveal_strlit("db.system");
    reveal_strlit("db.version");
    reveal_strlit("otel.kind");
    reveal_strlit("net.peer.ip");
    reveal_strlit("net.peer.port");
    assert("db.name"@.len() == 7 && "db.system"@.len() == 9 && "db.version"@.len() == 10);
    assert("otel.kind"@.len() == 9 && "net.peer.ip"@.len() == 11);
    assert("net.peer.port"@.len() == 13);
    assert("db.system"@[0] == 'd');
    assert("otel.kind"@[0] == 'o');
}

/// The names of the identity fields are no names of fields of events.
pub proof fn lemma_identity_names_are_reserved()
    ensures
        !is_event_field("db.name"@),
        !is_event_field("db.system"@),
        !is_event_field("db.version"@),
        !is_event_field("otel.kind"@),
        !is_event_field("net.peer.ip"@),
        !is_event_field("net.peer.port"@),
{
    reveal_strlit("error");
    reveal_strlit("target");
    reveal_strlit("statement");
    reveal_strlit("depth");
    reveal_strlit("raw");
    reveal_strlit("db.name");
    reveal_strlit("db.system");
    reveal_strlit("db.version");
    reveal_strlit("otel.kind");
    reveal_strlit("net.peer.ip");
    reveal_strlit("net.peer.port");
    assert("error"@.len() == 5 && "target"@.len() == 6 && "statement"@.len() == 9);
    assert("depth"@.len() == 5 && "raw"@.len() == 3);
    assert("db.name"@.len() == 7 && "db.system"@.len() == 9 && "db.version"@.len() == 10);
    assert("otel.kind"@.len() == 9 && "net.peer.ip"@.len() == 11);
    assert("net.peer.port"@.len() == 13);
    assert("statement"@[0] == 's');
    assert("db.system"@[0] == 'd');
    assert("otel.kind"@[0] == 'o');
}

/// The identity that needs no probe is proper.
pub proof fn lemma_base_identity_is_proper(backend: Backend)
    ensures
        proper_identity(base_identity(backend)),
{
    lemma_identity_names_are_reserved();
    lemma_identity_names_differ();
}

/// A record whose own fields are distinct fields of events keeps distinct
/// field names when a proper identity is appended.
pub proof fn lemma_enrichment_keeps_names_distinct(own: Seq<FieldView>, identity: Seq<FieldView>)
    requires
        distinct_names(own),
        forall|i: int| 0 <= i < own.len() ==> is_event_field((#[trigger] own[i]).name),
        proper_identity(identity),
    ensures
        distinct_names(own + identity),
{
    let whole = own + identity;
    assert forall|i: int, j: int| 0 <= i < j < whole.len() implies (#[trigger] whole[i]).name != (
    #[trigger] whole[j]).name by {
        if j < own.len() {
            assert(whole[i] == own[i] && whole[j] == own[j]);
        } else if i < own.len() {
            assert(whole[i] == own[i] && whole[j] == identity[j - own.len()]);
        } else {
            assert(whole[i] == identity[i - own.len()] && whole[j] == identity[j - own.len()]);
        }
    }
}

/// Appending a reserved identity neither adds, removes nor changes a field
/// of the event.
pub proof fn lemma_enrichment_keeps_event_fields(
    own: Seq<FieldView>,
    identity: Seq<FieldView>,
    name: Seq<char>,
)
    requires
        reserved(identity),
        is_event_field(name),
    ensures
        has_field(own + identity, name) <==> has_field(own, name),
        field_value(own + identity, name) == field_value(own, name),
{
    let whole = own + identity;
    if has_field(own, name) {
        lemma_first_field_stays(own, identity, name);
    } else {
        assert forall|i: int| 0 <= i < whole.len() implies (#[trigger] whole[i]).name != name by {
            if i < own.len() {
                assert(whole[i] == own[i]);
            } else {
                assert(whole[i] == identity[i - own.len()]);
            }
        }
        lemma_position_of(whole, name);
        lemma_position_of(own, name);
    }
}

} // verus!
