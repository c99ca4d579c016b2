//! The document context: the symbol table that resolution consults.
use vstd::prelude::*;
use crate::error::{Error, ErrorKind, ErrorModel};
use crate::kind::{Kind, KindData, KindDataModel, KindModel};
use crate::text::str_eq;

verus! {

/// A declared field of a record type.
#[derive(Debug)]
pub struct Field {
    pub name: String,
    pub kind: KindData,
}

/// A record type: its name and its fields in declaration order.
#[derive(Debug)]
pub struct RecordDefinition {
    pub name: String,
    pub fields: Vec<Field>,
}

/// The declarations of one document: its name, the kinds of its variables,
/// its record types, and how deeply composite values may nest.
#[derive(Debug)]
pub struct DocContext {
    pub name: String,
    pub variables: Vec<(String, KindData)>,
    pub records: Vec<RecordDefinition>,
    pub max_depth: usize,
}

pub struct FieldModel {
    pub name: Seq<char>,
    pub kind: KindDataModel,
}

pub struct RecordModel {
    pub name: Seq<char>,
    pub fields: Seq<FieldModel>,
}

pub struct DocModel {
    pub name: Seq<char>,
    pub variables: Seq<(Seq<char>, KindDataModel)>,
    pub records: Seq<RecordModel>,
    pub max_depth: usize,
}

impl View for Field {
    type V = FieldModel;

    open spec fn view(&self) -> FieldModel {
        FieldModel { name: self.name@, kind: self.kind@ }
    }
}

impl View for RecordDefinition {
    type V = RecordModel;

    open spec fn view(&self) -> RecordModel {
        RecordModel { name: self.name@, fields: self.fields@.map_values(|f: Field| f@) }
    }
}

impl View for DocContext {
    type V = DocModel;

    open spec fn view(&self) -> DocModel {
        DocModel {
            name: self.name@,
            variables: self.variables@.map_values(|e: (String, KindData)| (e.0@, e.1@)),
            records: self.records@.map_values(|r: RecordDefinition| r@),
            max_depth: self.max_depth,
        }
    }
}

/// The kind of the first variable declared under `name`.
pub open spec fn find_variable(vars: Seq<(Seq<char>, KindDataModel)>, name: Seq<char>) -> Option<
    KindDataModel,
>
    decreases vars.len(),
{
    if vars.len() == 0 {
        None
    } else if vars[0].0 == name {
        Some(vars[0].1)
    } else {
        find_variable(vars.drop_first(), name)
    }
}

/// The first record type declared under `name`.
pub open spec fn find_record(records: Seq<RecordModel>, name: Seq<char>) -> Option<RecordModel>
    decreases records.len(),
{
    if records.len() == 0 {
        None
    } else if records[0].name == name {
        Some(records[0])
    } else {
        find_record(records.drop_first(), name)
    }
}

/// The kind that a list entry's label names: a primitive kind by its keyword,
/// or a declared record type by its name.
pub open spec fn label_kind(records: Seq<RecordModel>, label: Seq<char>) -> Option<KindModel> {
    if label == "string"@ {
        Some(KindModel::String)
    } else if label == "integer"@ {
        Some(KindModel::Integer)
    } else if label == "decimal"@ {
        Some(KindModel::Decimal)
    } else if label == "boolean"@ {
        Some(KindModel::Boolean)
    } else if label == "object"@ {
        Some(KindModel::Object)
    } else if label == "ui"@ {
        Some(KindModel::UI)
    } else if find_record(records, label) is Some {
        Some(KindModel::Record { name: label })
    } else {
        None
    }
}

impl DocContext {
    /// The document's name.
    pub fn document_name(&self) -> (r: &str)
        ensures
            r@ == self.name@,
    {
        self.name.as_str()
    }

    /// The kind declared for variable `name`.
    pub fn get_kind(&self, name: &str, line_number: usize) -> (r: Result<KindData, Error>)
        ensures
            match find_variable(self@.variables, name@) {
                Some(k) => r matches Ok(d) && d@ == k,
                None => r matches Err(e) && e@ == ErrorModel::new(
                    ErrorKind::LookupFailure,
                    name@,
                    self.name@,
                    line_number,
                ),
            },
    {
        let n = self.variables.len();
        let mut i: usize = 0;
        proof {
            assert(self@.variables.subrange(0, n as int) =~= self@.variables);
        }
        while i < n
            invariant
                n == self.variables@.len(),
                0 <= i <= n,
                find_variable(self@.variables, name@) == find_variable(
                    self@.variables.subrange(i as int, n as int),
                    name@,
                ),
            decreases n - i,
        {
            proof {
                assert(self@.variables.subrange(i as int, n as int).drop_first()
                    =~= self@.variables.subrange(i + 1, n as int));
            }
            if str_eq(self.variables[i].0.as_str(), name) {
                return Ok(self.variables[i].1.copy());
            }
            i = i + 1;
        }
        Err(Error::new(ErrorKind::LookupFailure, name, self.name.as_str(), line_number))
    }

    /// The record type declared under `name`.
    pub fn get_record(&self, line_number: usize, name: &str) -> (r: Result<&RecordDefinition, Error>)
        ensures
            match find_record(self@.records, name@) {
                Some(d) => r matches Ok(rd) && rd@ == d,
                None => r matches Err(e) && e@ == ErrorModel::new(
                    ErrorKind::LookupFailure,
                    name@,
                    self.name@,
                    line_number,
                ),
            },
    {
        let n = self.records.len();
        let mut i: usize = 0;
        proof {
            assert(self@.records.subrange(0, n as int) =~= self@.records);
        }
        while i < n
            invariant
                n == self.records@.len(),
                0 <= i <= n,
                find_record(self@.records, name@) == find_record(
                    self@.records.subrange(i as int, n as int),
                    name@,
                ),
            decreases n - i,
        {
            proof {
                assert(self@.records.subrange(i as int, n as int).drop_first()
                    =~= self@.records.subrange(i + 1, n as int));
            }
            if str_eq(self.records[i].name.as_str(), name) {
                return Ok(&self.records[i]);
            }
            i = i + 1;
        }
        Err(Error::new(ErrorKind::LookupFailure, name, self.name.as_str(), line_number))
    }

    /// Whether the list-entry label `label` names `kind`.
    pub fn kind_eq(&self, label: &str, kind: &Kind, line_number: usize) -> (r: Result<bool, Error>)
        ensures
            match label_kind(self@.records, label@) {
                Some(k) => r == Ok::<bool, Error>(k == kind@),
                None => r matches Err(e) && e@ == ErrorModel::new(
                    ErrorKind::LookupFailure,
                    label@,
                    self.name@,
                    line_number,
                ),
            },
    {
        let found = if str_eq(label, "string") {
            Kind::String
        } else if str_eq(label, "integer") {
            Kind::Integer
        } else if str_eq(label, "decimal") {
            Kind::Decimal
        } else if str_eq(label, "boolean") {
            Kind::Boolean
        } else if str_eq(label, "object") {
            Kind::Object
        } else if str_eq(label, "ui") {
            Kind::UI
        } else {
            match self.get_record(line_number, label) {
                Ok(_) => Kind::Record { name: String::from_str(label) },
                Err(e) => return Err(e),
            }
        };
        Ok(found.same(kind))
    }
}

} // verus!
