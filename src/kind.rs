//! The kind system: type descriptors of the document language.
use vstd::prelude::*;

verus! {

/// A type descriptor.
#[derive(Debug)]
pub enum Kind {
    String,
    Integer,
    Decimal,
    Boolean,
    Object,
    Record { name: String },
    List { kind: Box<Kind> },
    Optional { kind: Box<Kind> },
    UI,
}

/// The mathematical value of a [`Kind`]: record names as character sequences.
pub enum KindModel {
    String,
    Integer,
    Decimal,
    Boolean,
    Object,
    Record { name: Seq<char> },
    List { kind: Box<KindModel> },
    Optional { kind: Box<KindModel> },
    UI,
}

pub open spec fn kind_model(k: Kind) -> KindModel
    decreases k,
{
    match k {
        Kind::String => KindModel::String,
        Kind::Integer => KindModel::Integer,
        Kind::Decimal => KindModel::Decimal,
        Kind::Boolean => KindModel::Boolean,
        Kind::Object => KindModel::Object,
        Kind::Record { name } => KindModel::Record { name: name@ },
        Kind::List { kind } => KindModel::List { kind: Box::new(kind_model(*kind)) },
        Kind::Optional { kind } => KindModel::Optional { kind: Box::new(kind_model(*kind)) },
        Kind::UI => KindModel::UI,
    }
}

impl View for Kind {
    type V = KindModel;

    open spec fn view(&self) -> KindModel {
        kind_model(*self)
    }
}

impl Kind {
    /// Structural equality; record kinds compare by name.
    pub fn same(&self, other: &Kind) -> (r: bool)
        ensures
            r == (self@ == other@),
        decreases self,
    {
        match self {
            Kind::String => match other {
                Kind::String => true,
                _ => false,
            },
            Kind::Integer => match other {
                Kind::Integer => true,
                _ => false,
            },
            Kind::Decimal => match other {
                Kind::Decimal => true,
                _ => false,
            },
            Kind::Boolean => match other {
                Kind::Boolean => true,
                _ => false,
            },
            Kind::Object => match other {
                Kind::Object => true,
                _ => false,
            },
            Kind::UI => match other {
                Kind::UI => true,
                _ => false,
            },
            Kind::Record { name: a } => match other {
                Kind::Record { name: b } => crate::text::str_eq(a.as_str(), b.as_str()),
                _ => false,
            },
            Kind::List { kind: a } => match other {
                Kind::List { kind: b } => (**a).same(&**b),
                _ => false,
            },
            Kind::Optional { kind: a } => match other {
                Kind::Optional { kind: b } => (**a).same(&**b),
                _ => false,
            },
        }
    }

    /// A copy with the same model.
    pub fn copy(&self) -> (r: Kind)
        ensures
            r@ == self@,
        decreases self,
    {
        match self {
            Kind::String => Kind::String,
            Kind::Integer => Kind::Integer,
            Kind::Decimal => Kind::Decimal,
            Kind::Boolean => Kind::Boolean,
            Kind::Object => Kind::Object,
            Kind::UI => Kind::UI,
            Kind::Record { name } => Kind::Record { name: name.clone() },
            Kind::List { kind } => Kind::List { kind: Box::new((**kind).copy()) },
            Kind::Optional { kind } => Kind::Optional { kind: Box::new((**kind).copy()) },
        }
    }

    pub fn is_optional(&self) -> (r: bool)
        ensures
            r == self@ is Optional,
    {
        matches!(self, Kind::Optional { .. })
    }

    pub fn is_list(&self) -> (r: bool)
        ensures
            r == self@ is List,
    {
        matches!(self, Kind::List { .. })
    }

    /// Wraps this kind as an optional one.
    pub fn into_optional(self) -> (r: Kind)
        ensures
            r@ == (KindModel::Optional { kind: Box::new(self@) }),
    {
        Kind::Optional { kind: Box::new(self) }
    }
}

/// A kind, with whether a record field of it may be filled from a caption or
/// from a body.
#[derive(Debug)]
pub struct KindData {
    pub kind: Kind,
    pub caption: bool,
    pub body: bool,
}

pub struct KindDataModel {
    pub kind: KindModel,
    pub caption: bool,
    pub body: bool,
}

impl View for KindData {
    type V = KindDataModel;

    open spec fn view(&self) -> KindDataModel {
        KindDataModel { kind: self.kind@, caption: self.caption, body: self.body }
    }
}

pub open spec fn kind_data_opt(k: Option<&KindData>) -> Option<KindDataModel> {
    match k {
        Some(d) => Some(d@),
        None => None,
    }
}

impl KindData {
    pub fn new(kind: Kind) -> (r: KindData)
        ensures
            r@ == (KindDataModel { kind: kind@, caption: false, body: false }),
    {
        KindData { kind, caption: false, body: false }
    }

    pub fn copy(&self) -> (r: KindData)
        ensures
            r@ == self@,
    {
        KindData { kind: self.kind.copy(), caption: self.caption, body: self.body }
    }

    pub fn is_optional(&self) -> (r: bool)
        ensures
            r == self@.kind is Optional,
    {
        self.kind.is_optional()
    }

    pub fn is_list(&self) -> (r: bool)
        ensures
            r == self@.kind is List,
    {
        self.kind.is_list()
    }
}

} // verus!
