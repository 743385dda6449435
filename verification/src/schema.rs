//! Structural patterns over JSON documents.
//!
//! A [`Pattern`] says what a document must look like; [`Json::conforms`]
//! decides whether it does. Members that a pattern does not name are ignored.

use vstd::prelude::*;
use crate::json::{Json, JsonValue, Number, NumberValue};

verus! {

/// The value of a [`Field`].
pub struct FieldView {
    pub name: Seq<char>,
    pub pattern: PatternView,
    pub required: bool,
}

/// The value of a [`Pattern`].
pub enum PatternView {
    Text,
    Unsigned,
    Integer,
    Decimal,
    Flag,
    Record(Seq<FieldView>),
    List(Box<PatternView>),
    Tuple(Seq<PatternView>),
}

/// True when the document `v` has the shape `p`.
pub open spec fn fits(v: JsonValue, p: PatternView) -> bool
    decreases p,
{
    match p {
        PatternView::Text => v is Text,
        PatternView::Unsigned => v matches JsonValue::Number(NumberValue::Integer(n)) && 0 <= n
            <= u64::MAX,
        PatternView::Integer => v matches JsonValue::Number(NumberValue::Integer(n)) && i64::MIN
            <= n <= i64::MAX,
        PatternView::Decimal => v is Number || v is Text,
        PatternView::Flag => v is Bool,
        PatternView::Record(fields) => v is Object && forall|i: int|
            0 <= i < fields.len() ==> {
                let field = #[trigger] fields[i];
                match v.member(field.name) {
                    Some(value) => (!field.required && value is Null) || fits(
                        value,
                        field.pattern,
                    ),
                    None => !field.required,
                }
            },
        PatternView::List(item) => v matches JsonValue::Array(items) && forall|i: int|
            0 <= i < items.len() ==> fits(#[trigger] items[i], *item),
        PatternView::Tuple(parts) => v matches JsonValue::Array(items) && items.len()
            == parts.len() && forall|i: int|
            0 <= i < parts.len() ==> fits(items[i], #[trigger] parts[i]),
    }
}

/// One named member of a record pattern.
#[derive(Debug)]
pub struct Field {
    pub name: &'static str,
    pub pattern: Pattern,
    /// A member that is not required may be absent or `null`.
    pub required: bool,
}

/// The shape that a JSON document is held against.
#[derive(Debug)]
pub enum Pattern {
    /// A string.
    Text,
    /// A whole number from 0 to `u64::MAX`.
    Unsigned,
    /// A whole number from `i64::MIN` to `i64::MAX`.
    Integer,
    /// A number, or a string that stands for one.
    Decimal,
    /// `true` or `false`.
    Flag,
    /// An object that holds every required field, each of its own shape.
    Record(Vec<Field>),
    /// An array whose items all have one shape.
    List(Box<Pattern>),
    /// An array of fixed length, each position with its own shape.
    Tuple(Vec<Pattern>),
}

impl View for Pattern {
    type V = PatternView;

    open spec fn view(&self) -> PatternView
        decreases self,
    {
        match self {
            Pattern::Text => PatternView::Text,
            Pattern::Unsigned => PatternView::Unsigned,
            Pattern::Integer => PatternView::Integer,
            Pattern::Decimal => PatternView::Decimal,
            Pattern::Flag => PatternView::Flag,
            Pattern::Record(fields) => PatternView::Record(
                Seq::new(
                    fields@.len(),
                    |i: int|
                        if 0 <= i < fields@.len() {
                            FieldView {
                                name: fields@[i].name@,
                                pattern: fields@[i].pattern@,
                                required: fields@[i].required,
                            }
                        } else {
                            FieldView {
                                name: Seq::empty(),
                                pattern: PatternView::Text,
                                required: false,
                            }
                        },
                ),
            ),
            Pattern::List(item) => PatternView::List(Box::new((**item)@)),
            Pattern::Tuple(parts) => PatternView::Tuple(
                Seq::new(
                    parts@.len(),
                    |i: int|
                        if 0 <= i < parts@.len() {
                            parts@[i]@
                        } else {
                            PatternView::Text
                        },
                ),
            ),
        }
    }
}

impl View for Field {
    type V = FieldView;

    open spec fn view(&self) -> FieldView {
        FieldView { name: self.name@, pattern: self.pattern@, required: self.required }
    }
}

/// The fields of a record pattern, gathered one by one.
pub struct FieldsView {
    pub fields: Seq<FieldView>,
}

impl FieldsView {
    /// No fields yet.
    pub open spec fn none() -> FieldsView {
        FieldsView { fields: Seq::empty() }
    }

    /// These fields, followed by one more.
    pub open spec fn with(
        self,
        name: Seq<char>,
        pattern: PatternView,
        required: bool,
    ) -> FieldsView {
        FieldsView { fields: self.fields.push(FieldView { name, pattern, required }) }
    }

    /// These fields, followed by a member that must be present with the given shape.
    pub open spec fn required(self, name: &str, pattern: PatternView) -> FieldsView {
        self.with(name@, pattern, true)
    }

    /// These fields, followed by a member that may be absent or `null`, and
    /// has the given shape otherwise.
    pub open spec fn optional(self, name: &str, pattern: PatternView) -> FieldsView {
        self.with(name@, pattern, false)
    }

    /// These fields, followed by a required string.
    pub open spec fn text(self, name: &str) -> FieldsView {
        self.with(name@, PatternView::Text, true)
    }

    /// These fields, followed by a required whole number from 0 to `u64::MAX`.
    pub open spec fn unsigned(self, name: &str) -> FieldsView {
        self.with(name@, PatternView::Unsigned, true)
    }

    /// These fields, followed by a required whole number from `i64::MIN` to `i64::MAX`.
    pub open spec fn integer(self, name: &str) -> FieldsView {
        self.with(name@, PatternView::Integer, true)
    }

    /// These fields, followed by a required flag.
    pub open spec fn flag(self, name: &str) -> FieldsView {
        self.with(name@, PatternView::Flag, true)
    }

    /// The shape of an object that holds these fields.
    pub open spec fn record(self) -> PatternView {
        PatternView::Record(self.fields)
    }
}

impl PatternView {
    /// An array whose items all have the shape `item`.
    pub open spec fn list_of(item: PatternView) -> PatternView {
        PatternView::List(Box::new(item))
    }

    /// An array of exactly two numbers, each given as a number or as a string.
    pub open spec fn decimal_pair() -> PatternView {
        PatternView::Tuple(seq![PatternView::Decimal, PatternView::Decimal])
    }
}

/// The fields of a record pattern, gathered one by one.
pub struct Fields {
    fields: Vec<Field>,
}

impl View for Fields {
    type V = FieldsView;

    closed spec fn view(&self) -> FieldsView {
        FieldsView { fields: Seq::new(self.fields@.len(), |i: int| self.fields@[i]@) }
    }
}

impl Fields {
    /// No fields yet.
    pub fn none() -> (out: Fields)
        ensures
            out@ == FieldsView::none(),
    {
        let out = Fields { fields: Vec::new() };
        assert(out@.fields =~= FieldsView::none().fields);
        out
    }

    /// These fields, followed by one more.
    pub fn with(self, name: &'static str, pattern: Pattern, required: bool) -> (out: Fields)
        ensures
            out@ == self@.with(name@, pattern@, required),
    {
        let mut fields = self.fields;
        fields.push(Field { name, pattern, required });
        let out = Fields { fields };
        assert(out@.fields =~= self@.with(name@, pattern@, required).fields);
        out
    }

    /// These fields, followed by a required member of the given shape.
    pub fn required(self, name: &'static str, pattern: Pattern) -> (out: Fields)
        ensures
            out@ == self@.required(name, pattern@),
    {
        self.with(name, pattern, true)
    }

    /// These fields, followed by a member that may be absent or `null`.
    pub fn optional(self, name: &'static str, pattern: Pattern) -> (out: Fields)
        ensures
            out@ == self@.optional(name, pattern@),
    {
        self.with(name, pattern, false)
    }

    /// These fields, followed by a required string.
    pub fn text(self, name: &'static str) -> (out: Fields)
        ensures
            out@ == self@.text(name),
    {
        self.with(name, Pattern::Text, true)
    }

    /// These fields, followed by a required whole number from 0 to `u64::MAX`.
    pub fn unsigned(self, name: &'static str) -> (out: Fields)
        ensures
            out@ == self@.unsigned(name),
    {
        self.with(name, Pattern::Unsigned, true)
    }

    /// These fields, followed by a required whole number from `i64::MIN` to `i64::MAX`.
    pub fn integer(self, name: &'static str) -> (out: Fields)
        ensures
            out@ == self@.integer(name),
    {
        self.with(name, Pattern::Integer, true)
    }

    /// These fields, followed by a required flag.
    pub fn flag(self, name: &'static str) -> (out: Fields)
        ensures
            out@ == self@.flag(name),
    {
        self.with(name, Pattern::Flag, true)
    }

    /// The pattern of an object that holds these fields.
    pub fn record(self) -> (out: Pattern)
        ensures
            out@ == self@.record(),
    {
        let out = Pattern::Record(self.fields);
        assert(out@->Record_0 =~= self@.fields);
        out
    }
}

impl Pattern {
    /// The pattern of an array whose items all have the shape `item`.
    pub fn list_of(item: Pattern) -> (out: Pattern)
        ensures
            out@ == PatternView::list_of(item@),
    {
        Pattern::List(Box::new(item))
    }

    /// The pattern of an array of exactly two numbers, each given as a number
    /// or as a string.
    pub fn decimal_pair() -> (out: Pattern)
        ensures
            out@ == PatternView::decimal_pair(),
    {
        let mut parts: Vec<Pattern> = Vec::new();
        parts.push(Pattern::Decimal);
        parts.push(Pattern::Decimal);
        assert(parts@[0]@ == PatternView::Decimal);
        assert(parts@[1]@ == PatternView::Decimal);
        let out = Pattern::Tuple(parts);
        assert(out@->Tuple_0 =~= seq![PatternView::Decimal, PatternView::Decimal]);
        out
    }
}

impl Json {
    /// Decides whether this document has the shape `pattern`.
    pub fn conforms(&self, pattern: &Pattern) -> (ok: bool)
        ensures
            ok == fits(self@, pattern@),
        decreases pattern,
    {
        match pattern {
            Pattern::Text => match self {
                Json::Text(_) => true,
                _ => false,
            },
            Pattern::Unsigned => match self {
                Json::Number(Number::Unsigned(_)) => true,
                Json::Number(Number::Signed(n)) => *n >= 0,
                _ => false,
            },
            Pattern::Integer => match self {
                Json::Number(Number::Unsigned(n)) => *n <= 0x7fff_ffff_ffff_ffff,
                Json::Number(Number::Signed(_)) => true,
                _ => false,
            },
            Pattern::Decimal => match self {
                Json::Number(_) => true,
                Json::Text(_) => true,
                _ => false,
            },
            Pattern::Flag => match self {
                Json::Bool(_) => true,
                _ => false,
            },
            Pattern::Record(fields) => {
                match self {
                    Json::Object(_) => {},
                    _ => {
                        return false;
                    },
                }
                let ghost specs = pattern@->Record_0;
                let mut i: usize = 0;
                while i < fields.len()
                    invariant
                        i <= fields.len(),
                        *pattern == Pattern::Record(*fields),
                        specs == pattern@->Record_0,
                        specs.len() == fields@.len(),
                        self@ is Object,
                        forall|j: int|
                            0 <= j < i ==> {
                                let field = #[trigger] specs[j];
                                match self@.member(field.name) {
                                    Some(value) => (!field.required && value is Null) || fits(
                                        value,
                                        field.pattern,
                                    ),
                                    None => !field.required,
                                }
                            },
                    decreases fields.len() - i,
                {
                    let field = &fields[i];
                    assert(specs[i as int] == field@);
                    let ok = match self.get(field.name) {
                        Some(value) => (!field.required && value.is_null()) || value.conforms(
                            &field.pattern,
                        ),
                        None => !field.required,
                    };
                    if !ok {
                        return false;
                    }
                    i += 1;
                }
                true
            },
            Pattern::List(item) => match self {
                Json::Array(items) => {
                    let ghost viewed = self@->Array_0;
                    let inner: &Pattern = &**item;
                    let mut i: usize = 0;
                    while i < items.len()
                        invariant
                            i <= items.len(),
                            *self == Json::Array(*items),
                            *pattern == Pattern::List(Box::new(*inner)),
                            decreases_to!(pattern => inner),
                            viewed == self@->Array_0,
                            viewed.len() == items@.len(),
                            forall|j: int| 0 <= j < i ==> fits(#[trigger] viewed[j], inner@),
                        decreases items.len() - i,
                    {
                        assert(viewed[i as int] == items@[i as int]@);
                        if !items[i].conforms(inner) {
                            return false;
                        }
                        i += 1;
                    }
                    true
                },
                _ => false,
            },
            Pattern::Tuple(parts) => match self {
                Json::Array(items) => {
                    if items.len() != parts.len() {
                        return false;
                    }
                    let ghost viewed = self@->Array_0;
                    let ghost specs = pattern@->Tuple_0;
                    let mut i: usize = 0;
                    while i < parts.len()
                        invariant
                            i <= parts.len(),
                            items.len() == parts.len(),
                            *self == Json::Array(*items),
                            *pattern == Pattern::Tuple(*parts),
                            viewed == self@->Array_0,
                            viewed.len() == items@.len(),
                            specs == pattern@->Tuple_0,
                            specs.len() == parts@.len(),
                            forall|j: int| 0 <= j < i ==> fits(viewed[j], #[trigger] specs[j]),
                        decreases parts.len() - i,
                    {
                        assert(viewed[i as int] == items@[i as int]@);
                        assert(specs[i as int] == parts@[i as int]@);
                        if !items[i].conforms(&parts[i]) {
                            return false;
                        }
                        i += 1;
                    }
                    true
                },
                _ => false,
            },
        }
    }
}

} // verus!
