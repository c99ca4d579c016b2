//! Resolved values: what resolution produces from the syntax tree.
use vstd::prelude::*;
use crate::kind::{Kind, KindData, KindDataModel, KindModel};

verus! {

/// The outcome of resolving one property: a concrete value, or a reference to
/// a named variable whose value is supplied later.
#[derive(Debug)]
pub enum PropertyValue {
    Value { value: Value, line_number: usize },
    Reference { name: String, kind: KindData, line_number: usize },
}

/// A resolved runtime value.
///
/// A decimal keeps its numeral exactly as written; resolution builds
/// decimals only from numerals of the decimal literal grammar (see
/// `crate::literal`).
#[derive(Debug)]
pub enum Value {
    String { text: String },
    Integer { value: i64 },
    Decimal { text: String },
    Boolean { value: bool },
    Object { values: Vec<(String, PropertyValue)> },
    /// One entry per field of the record type, in declaration order.
    Record { name: String, fields: Vec<(String, PropertyValue)> },
    List { data: Vec<PropertyValue>, kind: KindData },
    Optional { data: Box<Option<Value>>, kind: KindData },
    UI { name: String },
}

pub enum PropertyValueModel {
    Value { value: ValueModel, line: usize },
    Reference { name: Seq<char>, kind: KindDataModel, line: usize },
}

/// The mathematical value of a [`Value`]. `List` holds the element kind;
/// `Optional` holds the kind of its payload.
pub enum ValueModel {
    String { text: Seq<char> },
    Integer { value: i64 },
    Decimal { text: Seq<char> },
    Boolean { value: bool },
    Object { values: Seq<(Seq<char>, PropertyValueModel)> },
    Record { name: Seq<char>, fields: Seq<(Seq<char>, PropertyValueModel)> },
    List { data: Seq<PropertyValueModel>, kind: KindDataModel },
    Optional { data: Option<Box<ValueModel>>, kind: KindDataModel },
    UI { name: Seq<char> },
}

pub open spec fn property_value_model(p: PropertyValue) -> PropertyValueModel
    decreases p,
{
    match p {
        PropertyValue::Value { value, line_number } => PropertyValueModel::Value {
            value: value_model(value),
            line: line_number,
        },
        PropertyValue::Reference { name, kind, line_number } => PropertyValueModel::Reference {
            name: name@,
            kind: kind@,
            line: line_number,
        },
    }
}

pub open spec fn value_model(v: Value) -> ValueModel
    decreases v,
{
    match v {
        Value::String { text } => ValueModel::String { text: text@ },
        Value::Integer { value } => ValueModel::Integer { value },
        Value::Decimal { text } => ValueModel::Decimal { text: text@ },
        Value::Boolean { value } => ValueModel::Boolean { value },
        Value::Object { values } => ValueModel::Object {
            values: Seq::new(
                values.len() as nat,
                |i: int|
                    if 0 <= i < values.len() {
                        (values[i].0@, property_value_model(values[i].1))
                    } else {
                        (Seq::empty(), PropertyValueModel::Value { value: ValueModel::UI { name: Seq::empty() }, line: 0 })
                    },
            ),
        },
        Value::Record { name, fields } => ValueModel::Record {
            name: name@,
            fields: Seq::new(
                fields.len() as nat,
                |i: int|
                    if 0 <= i < fields.len() {
                        (fields[i].0@, property_value_model(fields[i].1))
                    } else {
                        (Seq::empty(), PropertyValueModel::Value { value: ValueModel::UI { name: Seq::empty() }, line: 0 })
                    },
            ),
        },
        Value::List { data, kind } => ValueModel::List {
            data: Seq::new(
                data.len() as nat,
                |i: int|
                    if 0 <= i < data.len() {
                        property_value_model(data[i])
                    } else {
                        PropertyValueModel::Value { value: ValueModel::UI { name: Seq::empty() }, line: 0 }
                    },
            ),
            kind: kind@,
        },
        Value::Optional { data, kind } => ValueModel::Optional {
            data: match *data {
                Some(d) => Some(Box::new(value_model(d))),
                None => None,
            },
            kind: kind@,
        },
        Value::UI { name } => ValueModel::UI { name: name@ },
    }
}

impl View for PropertyValue {
    type V = PropertyValueModel;

    open spec fn view(&self) -> PropertyValueModel {
        property_value_model(*self)
    }
}

impl View for Value {
    type V = ValueModel;

    open spec fn view(&self) -> ValueModel {
        value_model(*self)
    }
}

impl ValueModel {
    /// The kind of a value, read off its variant alone.
    pub open spec fn kind(self) -> KindModel {
        match self {
            ValueModel::String { .. } => KindModel::String,
            ValueModel::Integer { .. } => KindModel::Integer,
            ValueModel::Decimal { .. } => KindModel::Decimal,
            ValueModel::Boolean { .. } => KindModel::Boolean,
            ValueModel::Object { .. } => KindModel::Object,
            ValueModel::Record { name, .. } => KindModel::Record { name },
            ValueModel::List { kind, .. } => KindModel::List { kind: Box::new(kind.kind) },
            ValueModel::Optional { kind, .. } => KindModel::Optional { kind: Box::new(kind.kind) },
            ValueModel::UI { .. } => KindModel::UI,
        }
    }
}

impl PropertyValueModel {
    pub open spec fn kind(self) -> KindModel {
        match self {
            PropertyValueModel::Value { value, .. } => value.kind(),
            PropertyValueModel::Reference { kind, .. } => kind.kind,
        }
    }
}

impl Value {
    /// The kind of this value, from its variant and without visiting children.
    pub fn kind(&self) -> (k: Kind)
        ensures
            k@ == self@.kind(),
    {
        match self {
            Value::String { .. } => Kind::String,
            Value::Integer { .. } => Kind::Integer,
            Value::Decimal { .. } => Kind::Decimal,
            Value::Boolean { .. } => Kind::Boolean,
            Value::Object { .. } => Kind::Object,
            Value::Record { name, .. } => Kind::Record { name: name.clone() },
            Value::List { kind, .. } => Kind::List { kind: Box::new(kind.kind.copy()) },
            Value::Optional { kind, .. } => Kind::Optional { kind: Box::new(kind.kind.copy()) },
            Value::UI { .. } => Kind::UI,
        }
    }
}

impl PropertyValue {
    /// The kind of this property: the stored kind of a reference, or the
    /// kind of a value.
    pub fn kind(&self) -> (k: Kind)
        ensures
            k@ == self@.kind(),
    {
        match self {
            PropertyValue::Value { value, .. } => value.kind(),
            PropertyValue::Reference { kind, .. } => kind.kind.copy(),
        }
    }
}

} // verus!
