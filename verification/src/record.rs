//! The unit handed to an emission sink: a named, leveled record with an
//! ordered list of named fields.

use vstd::prelude::*;
use vstd::string::StringExecFns;

use crate::text::{append_signed_decimal, signed_decimal};

verus! {

/// Severity of a record.
#[derive(Clone, Copy, Debug, PartialEq, Eq, Structural)]
pub enum Level {
    /// Routine lifecycle traffic.
    Debug,
    /// An event that could not be classified.
    Warn,
    /// An operation that failed.
    Error,
}

/// What a field holds.
#[derive(Clone, Debug, PartialEq, Eq)]
pub enum FieldValue {
    /// A text.
    Text(String),
    /// An integer.
    Integer(i64),
    /// A marker for data that is not available yet.
    Empty,
}

/// The mathematical value of a [`FieldValue`].
pub enum FieldValueView {
    Text(Seq<char>),
    Integer(int),
    Empty,
}

impl View for FieldValue {
    type V = FieldValueView;

    open spec fn view(&self) -> FieldValueView {
        match self {
            FieldValue::Text(text) => FieldValueView::Text(text@),
            FieldValue::Integer(number) => FieldValueView::Integer(*number as int),
            FieldValue::Empty => FieldValueView::Empty,
        }
    }
}

/// A named value of a record.
#[derive(Clone, Debug, PartialEq, Eq)]
pub struct Field {
    /// The field's name.
    pub name: String,
    /// The field's value.
    pub value: FieldValue,
}

/// The mathematical value of a [`Field`].
pub struct FieldView {
    pub name: Seq<char>,
    pub value: FieldValueView,
}

impl View for Field {
    type V = FieldView;

    open spec fn view(&self) -> FieldView {
        FieldView { name: self.name@, value: self.value@ }
    }
}

/// The values of a list of fields, in order.
pub open spec fn fields_view(fields: Seq<Field>) -> Seq<FieldView> {
    fields.map_values(|field: Field| field@)
}

/// A named, leveled record.
#[derive(Clone, Debug, PartialEq, Eq)]
pub struct Record {
    /// The constant name of the kind of event.
    pub name: String,
    /// The severity.
    pub level: Level,
    /// The human-readable line.
    pub message: String,
    /// The named fields, in emission order.
    pub fields: Vec<Field>,
}

/// The mathematical value of a [`Record`].
pub struct RecordView {
    pub name: Seq<char>,
    pub level: Level,
    pub message: Seq<char>,
    pub fields: Seq<FieldView>,
}

impl View for Record {
    type V = RecordView;

    open spec fn view(&self) -> RecordView {
        RecordView {
            name: self.name@,
            level: self.level,
            message: self.message@,
            fields: fields_view(self.fields@),
        }
    }
}

/// A value as text: a text as it is, an integer as its decimal numeral,
/// and nothing for a value that is not available.
pub open spec fn value_text(value: FieldValueView) -> Seq<char> {
    match value {
        FieldValueView::Text(text) => text,
        FieldValueView::Integer(number) => signed_decimal(number),
        FieldValueView::Empty => Seq::empty(),
    }
}

/// A field as text: its name, an equals sign, and its value.
pub open spec fn field_text(field: FieldView) -> Seq<char> {
    field.name + "="@ + value_text(field.value)
}

/// Fields as one line of text: each as text, in order, with one space
/// between two.
pub open spec fn fields_text(fields: Seq<FieldView>) -> Seq<char>
    decreases fields.len(),
{
    if fields.len() == 0 {
        Seq::empty()
    } else if fields.len() == 1 {
        field_text(fields[0])
    } else {
        fields_text(fields.drop_last()) + " "@ + field_text(fields.last())
    }
}

/// How many of `records` go by `name`.
pub open spec fn count_named(records: Seq<RecordView>, name: Seq<char>) -> nat
    decreases records.len(),
{
    if records.len() == 0 {
        0
    } else {
        let first: nat = if records[0].name == name {
            1
        } else {
            0
        };
        first + count_named(records.drop_first(), name)
    }
}

/// Whether no two of `fields` go by the same name.
pub open spec fn distinct_names(fields: Seq<FieldView>) -> bool {
    forall|i: int, j: int|
        0 <= i < j < fields.len() ==> (#[trigger] fields[i]).name != (#[trigger] fields[j]).name
}

/// The position of the first field called `name`, if there is one.
pub open spec fn position_of(fields: Seq<FieldView>, name: Seq<char>) -> Option<int>
    decreases fields.len(),
{
    if fields.len() == 0 {
        None
    } else if fields[0].name == name {
        Some(0)
    } else {
        match position_of(fields.drop_first(), name) {
            Some(i) => Some(i + 1),
            None => None,
        }
    }
}

/// Whether some field is called `name`.
pub open spec fn has_field(fields: Seq<FieldView>, name: Seq<char>) -> bool {
    exists|i: int| 0 <= i < fields.len() && (#[trigger] fields[i]).name == name
}

/// The value of the first field called `name`, if there is one.
pub open spec fn field_value(fields: Seq<FieldView>, name: Seq<char>) -> Option<FieldValueView> {
    match position_of(fields, name) {
        Some(i) => Some(fields[i].value),
        None => None,
    }
}

/// `position_of` finds the least index that carries the name, and finds
/// one exactly when the name is present.
pub proof fn lemma_position_of(fields: Seq<FieldView>, name: Seq<char>)
    ensures
        position_of(fields, name) is Some <==> has_field(fields, name),
        position_of(fields, name) matches Some(i) ==> {
            &&& 0 <= i < fields.len()
            &&& fields[i].name == name
            &&& forall|j: int| 0 <= j < i ==> (#[trigger] fields[j]).name != name
        },
    decreases fields.len(),
{
    if fields.len() == 0 {
    } else if fields[0].name == name {
    } else {
        let rest = fields.drop_first();
        lemma_position_of(rest, name);
        match position_of(rest, name) {
            Some(i) => {
                assert(fields[i + 1] == rest[i]);
                assert forall|j: int| 0 <= j < i + 1 implies (#[trigger] fields[j]).name
                    != name by {
                    if j > 0 {
                        assert(fields[j] == rest[j - 1]);
                    }
                }
            },
            None => {
                assert forall|j: int| 0 <= j < fields.len() implies (#[trigger] fields[j]).name
                    != name by {
                    if j > 0 {
                        assert(fields[j] == rest[j - 1]);
                    }
                }
            },
        }
    }
}

impl Field {
    /// A field that holds a text.
    pub fn text(name: &str, value: &str) -> (field: Field)
        ensures
            field@ == (FieldView { name: name@, value: FieldValueView::Text(value@) }),
    {
        Field { name: String::from_str(name), value: FieldValue::Text(String::from_str(value)) }
    }

    /// A field that holds an integer.
    pub fn integer(name: &str, value: i64) -> (field: Field)
        ensures
            field@ == (FieldView { name: name@, value: FieldValueView::Integer(value as int) }),
    {
        Field { name: String::from_str(name), value: FieldValue::Integer(value) }
    }

    /// A field whose value is not available yet.
    pub fn empty(name: &str) -> (field: Field)
        ensures
            field@ == (FieldView { name: name@, value: FieldValueView::Empty }),
    {
        Field { name: String::from_str(name), value: FieldValue::Empty }
    }

    /// A copy of this field.
    pub fn duplicate(&self) -> (field: Field)
        ensures
            field@ == self@,
    {
        let value = match &self.value {
            FieldValue::Text(text) => FieldValue::Text(text.clone()),
            FieldValue::Integer(number) => FieldValue::Integer(*number),
            FieldValue::Empty => FieldValue::Empty,
        };
        Field { name: self.name.clone(), value }
    }
}

impl Field {
    /// Appends this field as text to `out`.
    pub fn append_to(&self, out: &mut String)
        ensures
            final(out)@ == old(out)@ + field_text(self@),
    {
        out.append(self.name.as_str());
        out.append("=");
        match &self.value {
            FieldValue::Text(text) => {
                out.append(text.as_str());
            },
            FieldValue::Integer(number) => {
                append_signed_decimal(out, *number);
            },
            FieldValue::Empty => {},
        }
        assert(out@ =~= old(out)@ + field_text(self@));
    }
}

impl Record {
    /// The fields of the record as one line of text, for a sink that takes
    /// no structured fields.
    pub fn fields_line(&self) -> (line: String)
        ensures
            line@ == fields_text(self@.fields),
    {
        let mut line = String::new();
        let mut i: usize = 0;
        assert(self@.fields.take(0) =~= Seq::empty());
        while i < self.fields.len()
            invariant
                0 <= i <= self.fields.len(),
                line@ == fields_text(self@.fields.take(i as int)),
            decreases self.fields.len() - i,
        {
            let ghost done = self@.fields.take(i as int);
            let ghost next = self@.fields.take(i as int + 1);
            assert(next.drop_last() =~= done);
            assert(next.last() == self.fields@[i as int]@);
            if i > 0 {
                line.append(" ");
            }
            self.fields[i].append_to(&mut line);
            assert(line@ =~= fields_text(next));
            i += 1;
        }
        assert(self@.fields.take(i as int) =~= self@.fields);
        line
    }

    /// The value of the first field called `name`, if the record has one.
    pub fn field(&self, name: &str) -> (value: Option<&FieldValue>)
        ensures
            match value {
                Some(found) => field_value(self@.fields, name@) == Some(found@),
                None => field_value(self@.fields, name@) is None,
            },
            value is Some <==> has_field(self@.fields, name@),
    {
        let wanted = String::from_str(name);
        let mut i: usize = 0;
        while i < self.fields.len()
            invariant
                0 <= i <= self.fields.len(),
                wanted@ == name@,
                forall|j: int| 0 <= j < i ==> (#[trigger] self@.fields[j]).name != name@,
            decreases self.fields.len() - i,
        {
            if self.fields[i].name == wanted {
                proof {
                    lemma_found_at(self@.fields, name@, i as int);
                }
                return Some(&self.fields[i].value);
            }
            i += 1;
        }
        proof {
            lemma_position_of(self@.fields, name@);
        }
        None
    }

    /// Whether the record has a field called `name`.
    pub fn has_field(&self, name: &str) -> (present: bool)
        ensures
            present == has_field(self@.fields, name@),
    {
        self.field(name).is_some()
    }
}

/// A name that first occurs at `i` is what `position_of` finds.
proof fn lemma_found_at(fields: Seq<FieldView>, name: Seq<char>, i: int)
    requires
        0 <= i < fields.len(),
        fields[i].name == name,
        forall|j: int| 0 <= j < i ==> (#[trigger] fields[j]).name != name,
    ensures
        position_of(fields, name) == Some(i),
        has_field(fields, name),
{
    lemma_position_of(fields, name);
}

} // verus!
