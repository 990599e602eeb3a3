//! The syntax tree that a schema parser hands to this library: models with
//! their fields, attributes and byte spans into the schema text.
use vstd::prelude::*;

verus! {

broadcast use vstd::seq_lib::group_seq_properties;

/// A half-open byte range `[start, end)` into one schema text.
#[derive(Clone, Copy, Debug, PartialEq, Eq, Structural)]
pub struct Span {
    pub start: usize,
    pub end: usize,
}

/// How many values a field holds.
#[derive(Clone, Copy, Debug, PartialEq, Eq, Structural)]
pub enum FieldArity {
    Required,
    Optional,
    List,
}

/// An attribute argument's value. A function call keeps only its name.
#[derive(Debug)]
pub enum Expression {
    NumericValue(String),
    StringValue(String),
    ConstantValue(String),
    Function(String),
    Array(Vec<Expression>),
}

/// One argument of an attribute, optionally named, with the parser's
/// rendering of its value.
#[derive(Debug)]
pub struct Argument {
    pub name: Option<String>,
    pub value: Expression,
    pub value_text: String,
}

/// An attribute such as `@id`, `@relation(...)` or `@@index([...])`, by its
/// bare name. `empty_arguments` holds the names of arguments written
/// without a value.
#[derive(Debug)]
pub struct Attribute {
    pub name: String,
    pub arguments: Vec<Argument>,
    pub empty_arguments: Vec<String>,
}

/// A field's type as written: an identifier with its span, or the native
/// type text of `Unsupported("...")`.
#[derive(Clone, Debug)]
pub enum FieldType {
    Supported(String, Span),
    Unsupported(String),
}

#[derive(Debug)]
pub struct AstField {
    pub name: String,
    pub field_type: FieldType,
    pub arity: FieldArity,
    pub attributes: Vec<Attribute>,
}

/// A top-level `model` declaration with its block-level attributes.
#[derive(Debug)]
pub struct AstModel {
    pub name: String,
    pub fields: Vec<AstField>,
    pub attributes: Vec<Attribute>,
    pub span: Span,
}

/// The model declarations of one schema text in document order, and the
/// parser's diagnostics on it.
#[derive(Debug)]
pub struct SchemaAst {
    pub models: Vec<AstModel>,
    pub diagnostics: Vec<String>,
}

/// The characters of each string.
pub open spec fn strings_view(v: Seq<String>) -> Seq<Seq<char>> {
    v.map_values(|s: String| s@)
}

/// The bare identifier held by an expression, if it is one.
pub open spec fn constant_of(e: Expression) -> Seq<Seq<char>> {
    match e {
        Expression::ConstantValue(v) => seq![v@],
        _ => Seq::empty(),
    }
}

/// The bare identifiers listed directly in an array expression, in order;
/// nothing for any other expression.
pub open spec fn array_constants(e: Expression) -> Seq<Seq<char>> {
    match e {
        Expression::Array(items) => items@.flat_map(|x: Expression| constant_of(x)),
        _ => Seq::empty(),
    }
}

/// The bare identifiers listed directly in an array expression.
pub fn constants_in(e: &Expression) -> (r: Vec<String>)
    ensures
        strings_view(r@) == array_constants(*e),
{
    let mut out: Vec<String> = Vec::new();
    match e {
        Expression::Array(items) => {
            let mut i: usize = 0;
            while i < items.len()
                invariant
                    i <= items@.len(),
                    strings_view(out@) == items@.take(i as int).flat_map(
                        |x: Expression| constant_of(x),
                    ),
                decreases items@.len() - i,
            {
                proof {
                    items@.lemma_flat_map_take_append(|x: Expression| constant_of(x), i as int);
                }
                match &items[i] {
                    Expression::ConstantValue(v) => {
                        out.push(v.clone());
                        assert(strings_view(out@) =~= strings_view(out@.drop_last()).push(v@));
                    },
                    _ => {},
                }
                i = i + 1;
            }
            assert(items@.take(items@.len() as int) =~= items@);
        },
        _ => {},
    }
    out
}

/// A copy of each string, in order.
pub fn copy_strings(v: &Vec<String>) -> (r: Vec<String>)
    ensures
        strings_view(r@) == strings_view(v@),
{
    let mut r: Vec<String> = Vec::new();
    let mut k: usize = 0;
    while k < v.len()
        invariant
            k <= v@.len(),
            r@.len() == k,
            strings_view(r@) == strings_view(v@).take(k as int),
        decreases v@.len() - k,
    {
        r.push(v[k].clone());
        assert(strings_view(r@) =~= strings_view(v@).take(k + 1));
        k = k + 1;
    }
    assert(strings_view(v@).take(v@.len() as int) =~= strings_view(v@));
    r
}

} // verus!
