//! The untyped syntax tree of property values that the parser hands over.
use vstd::prelude::*;

verus! {

/// An untyped property value as written in the source.
#[derive(Debug)]
pub enum VariableValue {
    String { value: String, line_number: usize },
    List { value: Vec<(String, VariableValue)>, line_number: usize },
    Record {
        name: String,
        caption: Box<Option<VariableValue>>,
        headers: Vec<HeaderValue>,
        body: Option<BodyValue>,
        line_number: usize,
    },
}

/// A named header of a record-shaped value.
#[derive(Debug)]
pub struct HeaderValue {
    pub key: String,
    pub value: VariableValue,
    pub line_number: usize,
}

/// The free-text body of a record-shaped value.
#[derive(Clone, Debug)]
pub struct BodyValue {
    pub value: String,
    pub line_number: usize,
}

/// The mathematical value of a [`VariableValue`]. Headers are kept as
/// (name, value) pairs in source order, duplicates included.
pub enum AstModel {
    String { text: Seq<char>, line: usize },
    List { entries: Seq<(Seq<char>, AstModel)>, line: usize },
    Record {
        name: Seq<char>,
        caption: Option<Box<AstModel>>,
        headers: Seq<(Seq<char>, AstModel)>,
        body: Option<(Seq<char>, usize)>,
        line: usize,
    },
}

pub open spec fn ast_model(v: VariableValue) -> AstModel
    decreases v,
{
    match v {
        VariableValue::String { value, line_number } => AstModel::String {
            text: value@,
            line: line_number,
        },
        VariableValue::List { value, line_number } => AstModel::List {
            entries: Seq::new(
                value.len() as nat,
                |i: int|
                    if 0 <= i < value.len() {
                        (value[i].0@, ast_model(value[i].1))
                    } else {
                        (Seq::empty(), AstModel::String { text: Seq::empty(), line: 0 })
                    },
            ),
            line: line_number,
        },
        VariableValue::Record { name, caption, headers, body, line_number } => AstModel::Record {
            name: name@,
            caption: match *caption {
                Some(c) => Some(Box::new(ast_model(c))),
                None => None,
            },
            headers: Seq::new(
                headers.len() as nat,
                |i: int|
                    if 0 <= i < headers.len() {
                        (headers[i].key@, ast_model(headers[i].value))
                    } else {
                        (Seq::empty(), AstModel::String { text: Seq::empty(), line: 0 })
                    },
            ),
            body: match body {
                Some(b) => Some((b.value@, b.line_number)),
                None => None,
            },
            line: line_number,
        },
    }
}

impl View for VariableValue {
    type V = AstModel;

    open spec fn view(&self) -> AstModel {
        ast_model(*self)
    }
}

impl AstModel {
    pub open spec fn line(self) -> usize {
        match self {
            AstModel::String { line, .. } => line,
            AstModel::List { line, .. } => line,
            AstModel::Record { line, .. } => line,
        }
    }
}

impl VariableValue {
    pub fn line_number(&self) -> (r: usize)
        ensures
            r == self@.line(),
    {
        match self {
            VariableValue::String { line_number, .. } => *line_number,
            VariableValue::List { line_number, .. } => *line_number,
            VariableValue::Record { line_number, .. } => *line_number,
        }
    }

    pub fn is_list(&self) -> (r: bool)
        ensures
            r == self@ is List,
    {
        matches!(self, VariableValue::List { .. })
    }

    pub fn is_record(&self) -> (r: bool)
        ensures
            r == self@ is Record,
    {
        matches!(self, VariableValue::Record { .. })
    }
}

} // verus!
