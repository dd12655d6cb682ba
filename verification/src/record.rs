//! The structured record that stands for a command on the wire.
//!
//! A record is a short code that tells the kind of the command, followed by
//! named fields. How a record is laid out in bytes is the business of the
//! transport; this module only says what a record holds.
//!
//! Field names need not be distinct. Where a name occurs more than once, the
//! first field of that name counts and the later ones are ignored.
//!
//! A record may hold a credential, so none of these types can be printed with
//! `{:?}`.

use crate::command::contents_equal;
use crate::primitives::Bytes;
use vstd::prelude::*;
use vstd::std_specs::cmp::PartialEqSpecImpl;
use vstd::string::StringSliceAdditionalSpecFns;
use vstd::utf8::encode_utf8_decode_utf8;

verus! {

/// What a field of a record holds.
pub enum Value {
    Number(u64),
    Text(String),
    Bytes(Bytes),
    List(Vec<Bytes>),
}

/// The model of a `Value`.
pub enum ValueView {
    Number(u64),
    Text(Seq<char>),
    Bytes(Seq<u8>),
    List(Seq<Seq<u8>>),
}

/// A named field of a record.
pub struct Field {
    pub name: String,
    pub value: Value,
}

/// The model of a `Field`.
pub struct FieldView {
    pub name: Seq<char>,
    pub value: ValueView,
}

/// A command as the wire carries it: the code of its kind, then its fields.
pub struct Record {
    pub code: String,
    pub fields: Vec<Field>,
}

/// The model of a `Record`.
pub struct RecordView {
    pub code: Seq<char>,
    pub fields: Seq<FieldView>,
}

/// The value of the first field called `name`, if there is one.
pub open spec fn lookup(fields: Seq<FieldView>, name: Seq<char>) -> Option<ValueView>
    decreases fields.len(),
{
    if fields.len() == 0 {
        None
    } else if fields[0].name == name {
        Some(fields[0].value)
    } else {
        lookup(fields.drop_first(), name)
    }
}

/// Compares two texts character by character.
pub fn text_equal(a: &str, b: &str) -> (r: bool)
    ensures
        r == (a@ == b@),
{
    let x = a.as_bytes();
    let y = b.as_bytes();
    proof {
        encode_utf8_decode_utf8(a@);
        encode_utf8_decode_utf8(b@);
    }
    if x.len() != y.len() {
        return false;
    }
    let mut i: usize = 0;
    while i < x.len()
        invariant
            x@ == a.spec_bytes(),
            y@ == b.spec_bytes(),
            x@.len() == y@.len(),
            i <= x@.len(),
            forall|j: int| 0 <= j < i ==> x@[j] == y@[j],
        decreases x@.len() - i,
    {
        if x[i] != y[i] {
            return false;
        }
        i = i + 1;
    }
    assert(x@ =~= y@);
    true
}

impl View for Value {
    type V = ValueView;

    open spec fn view(&self) -> ValueView {
        match *self {
            Value::Number(n) => ValueView::Number(n),
            Value::Text(s) => ValueView::Text(s@),
            Value::Bytes(b) => ValueView::Bytes(b@),
            Value::List(l) => ValueView::List(l.deep_view()),
        }
    }
}

impl Clone for Value {
    fn clone(&self) -> (r: Value)
        ensures
            r@ == self@,
    {
        match self {
            Value::Number(n) => Value::Number(*n),
            Value::Text(s) => Value::Text(s.clone()),
            Value::Bytes(b) => Value::Bytes(b.clone()),
            Value::List(l) => {
                let copy = l.clone();
                assert(copy.deep_view() =~= l.deep_view());
                Value::List(copy)
            },
        }
    }
}

impl PartialEqSpecImpl for Value {
    open spec fn obeys_eq_spec() -> bool {
        true
    }

    open spec fn eq_spec(&self, other: &Value) -> bool {
        self@ == other@
    }
}

impl PartialEq for Value {
    fn eq(&self, other: &Value) -> (r: bool) {
        match (self, other) {
            (Value::Number(a), Value::Number(b)) => *a == *b,
            (Value::Text(a), Value::Text(b)) => *a == *b,
            (Value::Bytes(a), Value::Bytes(b)) => a == b,
            (Value::List(a), Value::List(b)) => contents_equal(a, b),
            _ => false,
        }
    }
}

impl View for Field {
    type V = FieldView;

    open spec fn view(&self) -> FieldView {
        FieldView { name: self.name@, value: self.value@ }
    }
}

impl Field {
    pub fn new(name: &str, value: Value) -> (r: Field)
        ensures
            r@ == (FieldView { name: name@, value: value@ }),
    {
        Field { name: name.to_owned(), value }
    }
}

impl Clone for Field {
    fn clone(&self) -> (r: Field)
        ensures
            r@ == self@,
    {
        Field { name: self.name.clone(), value: self.value.clone() }
    }
}

impl PartialEqSpecImpl for Field {
    open spec fn obeys_eq_spec() -> bool {
        true
    }

    open spec fn eq_spec(&self, other: &Field) -> bool {
        self@ == other@
    }
}

impl PartialEq for Field {
    fn eq(&self, other: &Field) -> (r: bool) {
        self.name == other.name && self.value == other.value
    }
}

impl View for Record {
    type V = RecordView;

    open spec fn view(&self) -> RecordView {
        RecordView { code: self.code@, fields: self.fields@.map_values(|f: Field| f@) }
    }
}

impl Record {
    /// A record of the given code, with no field yet.
    pub fn new(code: &str) -> (r: Record)
        ensures
            r@ == (RecordView { code: code@, fields: Seq::empty() }),
    {
        let r = Record { code: code.to_owned(), fields: Vec::new() };
        assert(r@.fields =~= Seq::empty());
        r
    }

    /// Adds a field behind those that the record has.
    pub fn with_field(self, name: &str, value: Value) -> (r: Record)
        ensures
            r@ == (RecordView {
                code: self@.code,
                fields: self@.fields.push(FieldView { name: name@, value: value@ }),
            }),
    {
        let mut r = self;
        r.fields.push(Field::new(name, value));
        assert(r@.fields =~= self@.fields.push(FieldView { name: name@, value: value@ }));
        r
    }

    /// The value of the first field called `name`.
    pub fn get(&self, name: &str) -> (r: Option<&Value>)
        ensures
            match r {
                Some(value) => lookup(self@.fields, name@) == Some(value@),
                None => lookup(self@.fields, name@) is None,
            },
    {
        let ghost all = self@.fields;
        assert(all.subrange(0, all.len() as int) =~= all);
        let mut i: usize = 0;
        while i < self.fields.len()
            invariant
                i <= self.fields.len(),
                all == self@.fields,
                lookup(all, name@) == lookup(all.subrange(i as int, all.len() as int), name@),
            decreases self.fields.len() - i,
        {
            let ghost rest = all.subrange(i as int, all.len() as int);
            assert(rest[0] == self.fields[i as int]@);
            assert(rest.drop_first() =~= all.subrange(i + 1, all.len() as int));
            if text_equal(self.fields[i].name.as_str(), name) {
                return Some(&self.fields[i].value);
            }
            i = i + 1;
        }
        assert(all.subrange(i as int, all.len() as int).len() == 0);
        None
    }
}

impl Clone for Record {
    fn clone(&self) -> (r: Record)
        ensures
            r@ == self@,
    {
        let mut fields: Vec<Field> = Vec::new();
        let mut i: usize = 0;
        while i < self.fields.len()
            invariant
                i <= self.fields.len(),
                fields.len() == i,
                forall|j: int| 0 <= j < i ==> fields@[j]@ == self.fields@[j]@,
            decreases self.fields.len() - i,
        {
            fields.push(self.fields[i].clone());
            i = i + 1;
        }
        let r = Record { code: self.code.clone(), fields };
        assert(r@.fields =~= self@.fields);
        r
    }
}

impl PartialEqSpecImpl for Record {
    open spec fn obeys_eq_spec() -> bool {
        true
    }

    open spec fn eq_spec(&self, other: &Record) -> bool {
        self@ == other@
    }
}

impl PartialEq for Record {
    fn eq(&self, other: &Record) -> (r: bool) {
        if !(self.code == other.code) {
            return false;
        }
        if self.fields.len() != other.fields.len() {
            assert(self@.fields.len() != other@.fields.len());
            return false;
        }
        let mut i: usize = 0;
        while i < self.fields.len()
            invariant
                self.fields.len() == other.fields.len(),
                i <= self.fields.len(),
                forall|j: int| 0 <= j < i ==> self@.fields[j] == other@.fields[j],
            decreases self.fields.len() - i,
        {
            if !(self.fields[i] == other.fields[i]) {
                assert(self@.fields[i as int] != other@.fields[i as int]);
                return false;
            }
            i = i + 1;
        }
        assert(self@.fields =~= other@.fields);
        true
    }
}

} // verus!
