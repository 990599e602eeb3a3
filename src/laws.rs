//! Properties that relate several calls or hold of every input.
use vstd::prelude::*;
use crate::ast::{AstField, Attribute, SchemaAst};
use crate::attributes::BlockTagView;
use crate::constraints::{constraint_of, field_constraints, ConstraintView};
use crate::highlight::{first_with_span, fragments_match, HtmlLayout, WeakSpan, weak_span};
use crate::model::field_spec;

verus! {

broadcast use vstd::seq_lib::group_seq_properties;

proof fn lemma_constraints_prefix_kept(attrs: Seq<Attribute>, k: int, n: int)
    requires
        0 <= k < n <= attrs.len(),
        attrs[k].name@ != "relation"@,
    ensures
        field_constraints(attrs.take(k as int)).len() < field_constraints(attrs.take(n)).len(),
        field_constraints(attrs.take(n))[field_constraints(attrs.take(k as int)).len() as int]
            == constraint_of(attrs[k]),
    decreases n - k,
{
    let f = |a: Attribute|
        if a.name@ == "relation"@ {
            Seq::<ConstraintView>::empty()
        } else {
            seq![constraint_of(a)]
        };
    if n == k + 1 {
        attrs.lemma_flat_map_take_append(f, k);
    } else {
        lemma_constraints_prefix_kept(attrs, k, n - 1);
        attrs.lemma_flat_map_take_append(f, n - 1);
    }
}

/// A field-level `@id` without arguments appears among the field's
/// constraints as `id` with no arguments, whatever the block attributes of
/// its model say.
pub proof fn lemma_field_id_constraint_kept(
    bytes: Seq<u8>,
    f: AstField,
    block: Seq<BlockTagView>,
    k: int,
)
    requires
        0 <= k < f.attributes@.len(),
        f.attributes@[k].name@ == "id"@,
        f.attributes@[k].arguments@.len() == 0,
    ensures
        exists|j: int|
            0 <= j < field_spec(bytes, f, block).constraints.len() && (#[trigger] field_spec(
                bytes,
                f,
                block,
            ).constraints[j]) == (ConstraintView { name: "id"@, arguments: Seq::empty() }),
{
    let attrs = f.attributes@;
    reveal_strlit("id");
    reveal_strlit("relation");
    assert("id"@.len() != "relation"@.len());
    lemma_constraints_prefix_kept(attrs, k, attrs.len() as int);
    assert(attrs.take(attrs.len() as int) =~= attrs);
    let j = field_constraints(attrs.take(k)).len() as int;
    assert(constraint_of(attrs[k]).arguments =~= Seq::<crate::constraints::ArgumentTypeView>::empty());
    assert(field_spec(bytes, f, block).constraints[j] == (ConstraintView {
        name: "id"@,
        arguments: Seq::empty(),
    }));
}

/// Two markup runs on texts with the same characters and the same syntax
/// tree give the same fragments, byte for byte and span for span.
pub proof fn lemma_markup_deterministic(
    text1: Seq<char>,
    text2: Seq<char>,
    ast: SchemaAst,
    r1: Seq<HtmlLayout>,
    r2: Seq<HtmlLayout>,
)
    requires
        text1 == text2,
        fragments_match(text1, ast, r1),
        fragments_match(text2, ast, r2),
    ensures
        r1.len() == r2.len(),
        forall|i: int|
            0 <= i < r1.len() ==> (#[trigger] r1[i]).html@ == r2[i].html@ && r1[i].span
                == r2[i].span,
{
}

/// A span that exactly one declaration has finds that declaration.
pub proof fn lemma_lookup_unique_span(ast: SchemaAst, span: WeakSpan, i: int)
    requires
        0 <= i < ast.models@.len(),
        weak_span(ast.models@[i].span) == span,
        forall|j: int|
            0 <= j < ast.models@.len() && j != i ==> weak_span(#[trigger] ast.models@[j].span)
                != span,
    ensures
        first_with_span(ast, span) == Some(i),
{
}

/// A span that no declaration has finds nothing.
pub proof fn lemma_lookup_missing_span(ast: SchemaAst, span: WeakSpan)
    requires
        forall|j: int|
            0 <= j < ast.models@.len() ==> weak_span(#[trigger] ast.models@[j].span) != span,
    ensures
        first_with_span(ast, span) is None,
{
}

} // verus!
