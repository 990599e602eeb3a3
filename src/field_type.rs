//! Type resolution: a field's raw type name and arity to a data type and
//! the modifier that is shown after it.
use vstd::prelude::*;
use crate::ast::FieldArity;
use crate::text::text_eq;

verus! {

/// A field's data type. Any identifier that is not a scalar keyword names a
/// related model, kept unresolved; an empty name is `Unknown`.
#[derive(Clone, Debug, PartialEq, Eq)]
pub enum DataTypes {
    Int,
    BigInt,
    Float,
    Decimal,
    Boolean,
    VarChar,
    DateTime,
    Json,
    Bytes,
    Unsupported(String),
    Relational(String),
    Unknown,
}

pub enum DataTypeView {
    Int,
    BigInt,
    Float,
    Decimal,
    Boolean,
    VarChar,
    DateTime,
    Json,
    Bytes,
    Unsupported(Seq<char>),
    Relational(Seq<char>),
    Unknown,
}

impl View for DataTypes {
    type V = DataTypeView;

    open spec fn view(&self) -> DataTypeView {
        match self {
            DataTypes::Int => DataTypeView::Int,
            DataTypes::BigInt => DataTypeView::BigInt,
            DataTypes::Float => DataTypeView::Float,
            DataTypes::Decimal => DataTypeView::Decimal,
            DataTypes::Boolean => DataTypeView::Boolean,
            DataTypes::VarChar => DataTypeView::VarChar,
            DataTypes::DateTime => DataTypeView::DateTime,
            DataTypes::Json => DataTypeView::Json,
            DataTypes::Bytes => DataTypeView::Bytes,
            DataTypes::Unsupported(t) => DataTypeView::Unsupported(t@),
            DataTypes::Relational(t) => DataTypeView::Relational(t@),
            DataTypes::Unknown => DataTypeView::Unknown,
        }
    }
}

/// The data type that a raw type name resolves to.
pub open spec fn resolve_type(name: Seq<char>) -> DataTypeView {
    if name == "Int"@ {
        DataTypeView::Int
    } else if name == "String"@ {
        DataTypeView::VarChar
    } else if name == "BigInt"@ {
        DataTypeView::BigInt
    } else if name == "Float"@ {
        DataTypeView::Float
    } else if name == "Decimal"@ {
        DataTypeView::Decimal
    } else if name == "DateTime"@ {
        DataTypeView::DateTime
    } else if name == "Boolean"@ {
        DataTypeView::Boolean
    } else if name == "Json"@ {
        DataTypeView::Json
    } else if name == "Bytes"@ {
        DataTypeView::Bytes
    } else if name == "Unsupported"@ {
        DataTypeView::Unsupported(name)
    } else if name.len() == 0 {
        DataTypeView::Unknown
    } else {
        DataTypeView::Relational(name)
    }
}

/// The modifier shown for an arity: nothing, `?` or `[]`.
pub open spec fn modifier_of(arity: FieldArity) -> Seq<char> {
    match arity {
        FieldArity::Required => Seq::empty(),
        FieldArity::Optional => "?"@,
        FieldArity::List => "[]"@,
    }
}

/// The name under which a data type is shown.
pub open spec fn shown_type_name(d: DataTypeView) -> Seq<char> {
    match d {
        DataTypeView::Int => "Int"@,
        DataTypeView::BigInt => "BigInt"@,
        DataTypeView::Float => "Float"@,
        DataTypeView::Decimal => "Decimal"@,
        DataTypeView::Boolean => "Boolean"@,
        DataTypeView::VarChar => "String"@,
        DataTypeView::DateTime => "DateTime"@,
        DataTypeView::Json => "Json"@,
        DataTypeView::Bytes => "Bytes"@,
        DataTypeView::Unsupported(t) => t,
        DataTypeView::Relational(t) => t,
        DataTypeView::Unknown => Seq::empty(),
    }
}

/// The modifier text for an arity.
pub fn modifier_text(arity: FieldArity) -> (r: String)
    ensures
        r@ == modifier_of(arity),
{
    match arity {
        FieldArity::Required => String::new(),
        FieldArity::Optional => String::from_str("?"),
        FieldArity::List => String::from_str("[]"),
    }
}

/// Resolves a raw type name and an arity to a data type and a modifier.
pub fn resolve(name: &str, arity: FieldArity) -> (r: (DataTypes, String))
    ensures
        r.0@ == resolve_type(name@),
        r.1@ == modifier_of(arity),
{
    let d = if text_eq(name, "Int") {
        DataTypes::Int
    } else if text_eq(name, "String") {
        DataTypes::VarChar
    } else if text_eq(name, "BigInt") {
        DataTypes::BigInt
    } else if text_eq(name, "Float") {
        DataTypes::Float
    } else if text_eq(name, "Decimal") {
        DataTypes::Decimal
    } else if text_eq(name, "DateTime") {
        DataTypes::DateTime
    } else if text_eq(name, "Boolean") {
        DataTypes::Boolean
    } else if text_eq(name, "Json") {
        DataTypes::Json
    } else if text_eq(name, "Bytes") {
        DataTypes::Bytes
    } else if text_eq(name, "Unsupported") {
        DataTypes::Unsupported(name.to_owned())
    } else if name.is_empty() {
        DataTypes::Unknown
    } else {
        DataTypes::Relational(name.to_owned())
    };
    (d, modifier_text(arity))
}

/// A resolved field type: the data type and the modifier shown after it.
#[derive(Clone, Debug)]
pub struct PrismaVizFieldType {
    pub data_type: DataTypes,
    pub modifier: String,
}

impl PrismaVizFieldType {
    /// A type not resolved yet: `Unknown`, with no modifier.
    pub fn new() -> (r: PrismaVizFieldType)
        ensures
            r.data_type@ == DataTypeView::Unknown,
            r.modifier@ == Seq::<char>::empty(),
    {
        PrismaVizFieldType { data_type: DataTypes::Unknown, modifier: String::new() }
    }

    /// Sets the data type and modifier from a raw type name and an arity.
    pub fn resolve_data_type(&mut self, name: String, arity: FieldArity)
        ensures
            final(self).data_type@ == resolve_type(name@),
            final(self).modifier@ == modifier_of(arity),
    {
        let (d, m) = resolve(name.as_str(), arity);
        self.data_type = d;
        self.modifier = m;
    }

    /// The name under which the data type is shown.
    pub fn get_data_type(&self) -> (r: String)
        ensures
            r@ == shown_type_name(self.data_type@),
    {
        match &self.data_type {
            DataTypes::Int => String::from_str("Int"),
            DataTypes::BigInt => String::from_str("BigInt"),
            DataTypes::Float => String::from_str("Float"),
            DataTypes::Decimal => String::from_str("Decimal"),
            DataTypes::Boolean => String::from_str("Boolean"),
            DataTypes::VarChar => String::from_str("String"),
            DataTypes::DateTime => String::from_str("DateTime"),
            DataTypes::Json => String::from_str("Json"),
            DataTypes::Bytes => String::from_str("Bytes"),
            DataTypes::Unsupported(t) => t.clone(),
            DataTypes::Relational(t) => t.clone(),
            DataTypes::Unknown => String::new(),
        }
    }

    /// The type's name followed by its modifier, such as `Post[]`.
    pub fn resolve_with_modifier(&self) -> (r: String)
        ensures
            r@ == shown_type_name(self.data_type@) + self.modifier@,
    {
        let mut r = self.get_data_type();
        r.append(self.modifier.as_str());
        r
    }
}

} // verus!
