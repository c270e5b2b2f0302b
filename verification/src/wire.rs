//! The wire form of a body or payload: an ordered list of named values.
//!
//! Descriptors produce an `Object` to transmit; responses arrive as one. The
//! transport turns an `Object` into bytes and back, and decides nothing.

use crate::common::{text_eq, Id, OrderStatus, OrderType, Side};
use crate::decimal::{
    decimal_from_integer, parse_decimal, parsed_decimal, spec_decimal_from_integer,
};
use crate::timestamp::Timestamp;
use rust_decimal::Decimal;
use vstd::prelude::*;

verus! {

/// One transmitted value.
#[derive(Clone, Debug)]
pub enum Value {
    /// An explicit null.
    Null,
    Bool(bool),
    /// A whole number, such as an identifier or a Unix timestamp.
    Integer(i128),
    /// An exact decimal, such as a price or a size.
    Number(Decimal),
    Text(String),
    /// An array or an object. No order field holds one, so its contents are
    /// not kept.
    Nested,
}

/// The mathematical content of a `Value`.
pub enum ValueView {
    Null,
    Bool(bool),
    Integer(int),
    Number(Decimal),
    Text(Seq<char>),
    Nested,
}

impl View for Value {
    type V = ValueView;

    open spec fn view(&self) -> ValueView {
        match self {
            Value::Null => ValueView::Null,
            Value::Bool(b) => ValueView::Bool(*b),
            Value::Integer(n) => ValueView::Integer(*n as int),
            Value::Number(d) => ValueView::Number(*d),
            Value::Text(s) => ValueView::Text(s@),
            Value::Nested => ValueView::Nested,
        }
    }
}

/// A named value.
#[derive(Clone, Debug)]
pub struct Field {
    pub key: String,
    pub value: Value,
}

/// The mathematical content of a `Field`.
pub struct FieldView {
    pub key: Seq<char>,
    pub value: ValueView,
}

impl View for Field {
    type V = FieldView;

    open spec fn view(&self) -> FieldView {
        FieldView { key: self.key@, value: self.value@ }
    }
}

/// The content of an optional value.
pub open spec fn optional_view(value: Option<Value>) -> Option<ValueView> {
    match value {
        Some(v) => Some(v@),
        None => None,
    }
}

/// The value of a text.
pub open spec fn text_value(text: Seq<char>) -> ValueView {
    ValueView::Text(text)
}

/// The value of an optional text: none where the text is absent.
pub open spec fn optional_text(text: Option<&str>) -> Option<ValueView> {
    match text {
        Some(t) => Some(ValueView::Text(t@)),
        None => None,
    }
}

/// The value of an optional decimal: none where the decimal is absent.
pub open spec fn optional_number(number: Option<Decimal>) -> Option<ValueView> {
    match number {
        Some(d) => Some(ValueView::Number(d)),
        None => None,
    }
}

/// The value of a decimal that is transmitted even when absent: an explicit
/// null stands for the absent one.
pub open spec fn nullable_number(number: Option<Decimal>) -> ValueView {
    match number {
        Some(d) => ValueView::Number(d),
        None => ValueView::Null,
    }
}

/// The value of an optional flag: none where the flag is absent.
pub open spec fn optional_flag(flag: Option<bool>) -> Option<ValueView> {
    match flag {
        Some(b) => Some(ValueView::Bool(b)),
        None => None,
    }
}

/// The content of an optional owned text.
pub open spec fn owned_text_view(text: Option<String>) -> Option<Seq<char>> {
    match text {
        Some(t) => Some(t@),
        None => None,
    }
}

impl ValueView {
    /// The text that the value holds, if it is a text.
    pub open spec fn as_text(self) -> Option<Seq<char>> {
        match self {
            ValueView::Text(t) => Some(t),
            _ => None,
        }
    }

    /// The flag that the value holds, if it is one.
    pub open spec fn as_flag(self) -> Option<bool> {
        match self {
            ValueView::Bool(b) => Some(b),
            _ => None,
        }
    }

    /// The identifier that the value holds: a whole number that is not
    /// negative and fits in 64 bits.
    pub open spec fn as_id(self) -> Option<Id> {
        match self {
            ValueView::Integer(n) => if 0 <= n <= u64::MAX {
                Some(n as u64)
            } else {
                None
            },
            _ => None,
        }
    }

    /// The decimal that the value stands for: a number itself, a whole
    /// number of up to 96 bits, or a text that reads as a decimal.
    pub open spec fn as_decimal(self) -> Option<Decimal> {
        match self {
            ValueView::Number(d) => Some(d),
            ValueView::Integer(n) => spec_decimal_from_integer(n),
            ValueView::Text(t) => parsed_decimal(t),
            _ => None,
        }
    }

    /// The side that the value names.
    pub open spec fn as_side(self) -> Option<Side> {
        match self {
            ValueView::Text(t) => Side::spec_parse(t),
            _ => None,
        }
    }

    /// The order type that the value names.
    pub open spec fn as_order_type(self) -> Option<OrderType> {
        match self {
            ValueView::Text(t) => OrderType::spec_parse(t),
            _ => None,
        }
    }

    /// The order status that the value names.
    pub open spec fn as_order_status(self) -> Option<OrderStatus> {
        match self {
            ValueView::Text(t) => OrderStatus::spec_parse(t),
            _ => None,
        }
    }

    /// The point in time that the value spells out.
    pub open spec fn as_timestamp(self) -> Option<Timestamp> {
        match self {
            ValueView::Text(t) => Timestamp::spec_parse(t),
            _ => None,
        }
    }
}

impl Value {
    /// The text that the value holds, if it is a text.
    pub fn as_text(&self) -> (text: Option<String>)
        ensures
            owned_text_view(text) == self@.as_text(),
    {
        match self {
            Value::Text(t) => Some(t.clone()),
            _ => None,
        }
    }

    /// The flag that the value holds, if it is one.
    pub fn as_flag(&self) -> (flag: Option<bool>)
        ensures
            flag == self@.as_flag(),
    {
        match self {
            Value::Bool(b) => Some(*b),
            _ => None,
        }
    }

    /// The identifier that the value holds, if it is a whole number from zero
    /// to the largest identifier.
    pub fn as_id(&self) -> (id: Option<Id>)
        ensures
            id == self@.as_id(),
    {
        match self {
            Value::Integer(n) => {
                if 0 <= *n && *n <= 0xFFFF_FFFF_FFFF_FFFF {
                    Some(*n as u64)
                } else {
                    None
                }
            },
            _ => None,
        }
    }

    /// The decimal that the value stands for, if it is a number, a whole
    /// number of up to 96 bits or a text that reads as a decimal.
    pub fn as_decimal(&self) -> (decimal: Option<Decimal>)
        ensures
            decimal == self@.as_decimal(),
    {
        match self {
            Value::Number(d) => Some(*d),
            Value::Integer(n) => decimal_from_integer(*n),
            Value::Text(t) => parse_decimal(t.as_str()),
            _ => None,
        }
    }

    /// The side that the value names, if it names one.
    pub fn as_side(&self) -> (side: Option<Side>)
        ensures
            side == self@.as_side(),
    {
        match self {
            Value::Text(t) => Side::parse(t.as_str()),
            _ => None,
        }
    }

    /// The order type that the value names, if it names one.
    pub fn as_order_type(&self) -> (kind: Option<OrderType>)
        ensures
            kind == self@.as_order_type(),
    {
        match self {
            Value::Text(t) => OrderType::parse(t.as_str()),
            _ => None,
        }
    }

    /// The order status that the value names, if it names one.
    pub fn as_order_status(&self) -> (status: Option<OrderStatus>)
        ensures
            status == self@.as_order_status(),
    {
        match self {
            Value::Text(t) => OrderStatus::parse(t.as_str()),
            _ => None,
        }
    }

    /// The point in time that the value spells out, if it is a date-and-time
    /// text.
    pub fn as_timestamp(&self) -> (time: Option<Timestamp>)
        ensures
            time == self@.as_timestamp(),
    {
        match self {
            Value::Text(t) => Timestamp::parse(t.as_str()),
            _ => None,
        }
    }

    /// The value of a text.
    pub fn text(text: &str) -> (value: Value)
        ensures
            value@ == text_value(text@),
    {
        Value::Text(text.to_owned())
    }

    /// The value of an optional text.
    pub fn optional_text(text: Option<&str>) -> (value: Option<Value>)
        ensures
            optional_view(value) == optional_text(text),
    {
        match text {
            Some(t) => Some(Value::text(t)),
            None => None,
        }
    }

    /// The value of an optional decimal.
    pub fn optional_number(number: Option<Decimal>) -> (value: Option<Value>)
        ensures
            optional_view(value) == optional_number(number),
    {
        match number {
            Some(d) => Some(Value::Number(d)),
            None => None,
        }
    }

    /// The value of a decimal that is transmitted even when absent.
    pub fn nullable_number(number: Option<Decimal>) -> (value: Value)
        ensures
            value@ == nullable_number(number),
    {
        match number {
            Some(d) => Value::Number(d),
            None => Value::Null,
        }
    }

    /// The value of an optional flag.
    pub fn optional_flag(flag: Option<bool>) -> (value: Option<Value>)
        ensures
            optional_view(value) == optional_flag(flag),
    {
        match flag {
            Some(b) => Some(Value::Bool(b)),
            None => None,
        }
    }
}

/// `fields` followed by one more field.
pub open spec fn put(fields: Seq<FieldView>, key: Seq<char>, value: ValueView) -> Seq<FieldView> {
    fields.push(FieldView { key, value })
}

/// `fields` followed by one more field if there is a value for it, and
/// `fields` unchanged if there is none: an absent value leaves no key.
pub open spec fn put_optional(
    fields: Seq<FieldView>,
    key: Seq<char>,
    value: Option<ValueView>,
) -> Seq<FieldView> {
    match value {
        Some(v) => put(fields, key, v),
        None => fields,
    }
}

/// How many fields carry the key.
pub open spec fn count_key(fields: Seq<FieldView>, key: Seq<char>) -> nat
    decreases fields.len(),
{
    if fields.len() == 0 {
        0
    } else {
        count_key(fields.drop_last(), key) + if fields.last().key == key {
            1nat
        } else {
            0nat
        }
    }
}

/// Whether some field carries the key.
pub open spec fn has_key(fields: Seq<FieldView>, key: Seq<char>) -> bool {
    count_key(fields, key) > 0
}

/// The value of the first field that carries the key. Meaningful only where
/// `has_key` holds.
pub open spec fn value_of(fields: Seq<FieldView>, key: Seq<char>) -> ValueView
    decreases fields.len(),
{
    if fields.len() == 0 {
        ValueView::Null
    } else if has_key(fields.drop_last(), key) {
        value_of(fields.drop_last(), key)
    } else {
        fields.last().value
    }
}

/// What a search for a key finds in an object.
pub enum LookupView {
    Absent,
    Once(ValueView),
    Repeated,
}

/// The outcome of searching `fields` for `key`.
pub open spec fn lookup(fields: Seq<FieldView>, key: Seq<char>) -> LookupView {
    if count_key(fields, key) == 0 {
        LookupView::Absent
    } else if count_key(fields, key) == 1 {
        LookupView::Once(value_of(fields, key))
    } else {
        LookupView::Repeated
    }
}

/// What a search for a key finds in an object.
#[derive(Clone, Copy, Debug)]
pub enum Lookup<'a> {
    /// No field carries the key.
    Absent,
    /// Exactly one field carries the key; this is its value.
    Once(&'a Value),
    /// Two or more fields carry the key.
    Repeated,
}

impl<'a> View for Lookup<'a> {
    type V = LookupView;

    open spec fn view(&self) -> LookupView {
        match self {
            Lookup::Absent => LookupView::Absent,
            Lookup::Once(v) => LookupView::Once(v@),
            Lookup::Repeated => LookupView::Repeated,
        }
    }
}

/// An ordered list of named values.
#[derive(Clone, Debug)]
pub struct Object {
    pub fields: Vec<Field>,
}

impl View for Object {
    type V = Seq<FieldView>;

    open spec fn view(&self) -> Seq<FieldView> {
        Seq::new(self.fields@.len(), |i: int| self.fields@[i]@)
    }
}

impl Object {
    /// The object without fields.
    pub fn new() -> (object: Object)
        ensures
            object@ == Seq::<FieldView>::empty(),
    {
        let object = Object { fields: Vec::new() };
        assert(object@ =~= Seq::<FieldView>::empty());
        object
    }

    /// The number of fields.
    pub fn len(&self) -> (n: usize)
        ensures
            n == self@.len(),
    {
        self.fields.len()
    }

    /// Appends a field.
    pub fn push(&mut self, key: &str, value: Value)
        ensures
            final(self)@ == put(old(self)@, key@, value@),
    {
        let field = Field { key: key.to_owned(), value };
        self.fields.push(field);
        assert(self@ =~= put(old(self)@, key@, value@));
    }

    /// Appends a field if there is a value for it.
    pub fn push_optional(&mut self, key: &str, value: Option<Value>)
        ensures
            final(self)@ == put_optional(old(self)@, key@, optional_view(value)),
    {
        match value {
            Some(v) => {
                self.push(key, v);
            },
            None => {},
        }
    }

    /// Searches the object for a key.
    pub fn find<'a>(&'a self, key: &str) -> (found: Lookup<'a>)
        ensures
            found@ == lookup(self@, key@),
    {
        let mut found = Lookup::Absent;
        let mut i: usize = 0;
        while i < self.fields.len()
            invariant
                0 <= i <= self.fields@.len(),
                found@ == lookup(self@.take(i as int), key@),
            decreases self.fields@.len() - i,
        {
            proof {
                let before = self@.take(i as int);
                let after = self@.take(i + 1);
                assert(after.drop_last() =~= before);
                assert(after.last() == self.fields@[i as int]@);
            }
            if text_eq(self.fields[i].key.as_str(), key) {
                found = match found {
                    Lookup::Absent => Lookup::Once(&self.fields[i].value),
                    _ => Lookup::Repeated,
                };
            }
            i = i + 1;
        }
        proof {
            assert(self@.take(i as int) =~= self@);
        }
        found
    }

    /// Whether some field carries the key.
    pub fn contains_key(&self, key: &str) -> (b: bool)
        ensures
            b == has_key(self@, key@),
    {
        match self.find(key) {
            Lookup::Absent => false,
            _ => true,
        }
    }
}

/// What a search finds after one more field with the searched key.
pub open spec fn found_again(before: LookupView, value: ValueView) -> LookupView {
    match before {
        LookupView::Absent => LookupView::Once(value),
        _ => LookupView::Repeated,
    }
}

/// What a search finds where the one possible value is optional.
pub open spec fn optional_lookup(value: Option<ValueView>) -> LookupView {
    match value {
        Some(v) => LookupView::Once(v),
        None => LookupView::Absent,
    }
}

/// The object without fields holds no key.
pub broadcast proof fn lemma_lookup_empty(probe: Seq<char>)
    ensures
        #[trigger] lookup(Seq::<FieldView>::empty(), probe) == LookupView::Absent,
{
}

/// Appending a field changes what is found under its own key and nothing
/// under any other.
pub broadcast proof fn lemma_lookup_put(
    fields: Seq<FieldView>,
    key: Seq<char>,
    value: ValueView,
    probe: Seq<char>,
)
    ensures
        #[trigger] lookup(put(fields, key, value), probe) == if key == probe {
            found_again(lookup(fields, probe), value)
        } else {
            lookup(fields, probe)
        },
{
    let extended = put(fields, key, value);
    assert(extended.drop_last() =~= fields);
}

/// Appending an optional field is appending where there is a value, and
/// nothing where there is none.
pub broadcast proof fn lemma_lookup_put_optional(
    fields: Seq<FieldView>,
    key: Seq<char>,
    value: Option<ValueView>,
    probe: Seq<char>,
)
    ensures
        #[trigger] lookup(put_optional(fields, key, value), probe) == if key == probe && value
            is Some {
            found_again(lookup(fields, probe), value->Some_0)
        } else {
            lookup(fields, probe)
        },
{
    if value is Some {
        lemma_lookup_put(fields, key, value->Some_0, probe);
    }
}

/// Inserting a field anywhere leaves what is found under every other key as
/// it was.
pub proof fn lemma_lookup_insert_other(
    fields: Seq<FieldView>,
    at: int,
    extra: FieldView,
    probe: Seq<char>,
)
    requires
        0 <= at <= fields.len(),
        extra.key != probe,
    ensures
        count_key(fields.insert(at, extra), probe) == count_key(fields, probe),
        has_key(fields, probe) ==> value_of(fields.insert(at, extra), probe) == value_of(
            fields,
            probe,
        ),
        lookup(fields.insert(at, extra), probe) == lookup(fields, probe),
    decreases fields.len() - at,
{
    let longer = fields.insert(at, extra);
    if at == fields.len() {
        assert(longer.drop_last() =~= fields);
    } else {
        assert(longer.drop_last() =~= fields.drop_last().insert(at, extra));
        assert(longer.last() == fields.last());
        lemma_lookup_insert_other(fields.drop_last(), at, extra, probe);
    }
}

} // verus!
