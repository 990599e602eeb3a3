//! Span-addressable fragments: the markup of every model declaration of a
//! schema text, and the lookup of one fragment by its exact span.
use vstd::prelude::*;
use vstd::utf8::encode_utf8;
use crate::ast::{strings_view, AstField, AstModel, Attribute, SchemaAst, Span};
use crate::markup::{
    arguments_spec, attribute_html, field_html, psl_field_spec, PslAttribute, PslAttributeView,
    PslField,
};
use crate::text::{escape, escape_html, join, join_strings};

verus! {

broadcast use vstd::seq_lib::group_seq_properties;

/// A span as exchanged with callers.
#[derive(Clone, Copy, Debug, PartialEq, Eq, Structural)]
pub struct WeakSpan {
    pub start: usize,
    pub end: usize,
}

/// A model's markup with the span of its declaration.
pub struct HtmlLayout {
    pub html: String,
    pub span: WeakSpan,
}

/// The fragment found for a span.
pub struct CodeHighlightOutput {
    pub code: HtmlLayout,
}

/// Why a span lookup gives no fragment.
#[derive(Debug)]
pub enum HighlightError {
    /// The parser reported these errors on the text.
    UnparsableSchema(Vec<String>),
    /// No declaration has exactly this span.
    UnresolvedSpanLookup(WeakSpan),
}

pub open spec fn weak_span(s: Span) -> WeakSpan {
    WeakSpan { start: s.start, end: s.end }
}

/// The display form of a block attribute, shown as `@@name`.
pub open spec fn block_attribute_spec(a: Attribute) -> PslAttributeView {
    PslAttributeView { name: "@"@ + a.name@, arguments: arguments_spec(a), is_relation: false }
}

pub open spec fn fields_html(bytes: Seq<u8>, m: AstModel) -> Seq<Seq<char>> {
    m.fields@.map_values(|f: AstField| field_html(psl_field_spec(bytes, f)))
}

pub open spec fn block_attributes_html(m: AstModel) -> Seq<Seq<char>> {
    m.attributes@.map_values(|a: Attribute| attribute_html(block_attribute_spec(a)))
}

pub open spec fn model_open_html(name: Seq<char>) -> Seq<char> {
    "<div class=\"model-name-open\"><span class=\"keyword model-keyword\">model</span><span class=\"model-name\">"@
        + escape(name) + "</span><span class=\"open-curly\">{</span></div>"@
}

/// A model's fragment: the `model Name {` opening, one block per field,
/// one badge per block attribute, and the closing brace.
pub open spec fn model_html(bytes: Seq<u8>, m: AstModel) -> Seq<char> {
    "<div class=\"model-container\">"@ + model_open_html(m.name@)
        + "<div class=\"fields-container\">"@ + join(fields_html(bytes, m), Seq::empty())
        + "</div><div class=\"model-attributes\">"@ + join(block_attributes_html(m), Seq::empty())
        + "</div><span class=\"close-curly\">}</span></div>"@
}

/// Whether the fragments are those of the declarations, one each, in order.
pub open spec fn fragments_match(text: Seq<char>, ast: SchemaAst, r: Seq<HtmlLayout>) -> bool {
    &&& r.len() == ast.models@.len()
    &&& forall|i: int|
        0 <= i < r.len() ==> (#[trigger] r[i]).html@ == model_html(
            encode_utf8(text),
            ast.models@[i],
        ) && r[i].span == weak_span(ast.models@[i].span)
}

/// The index of the first declaration with exactly this span, if any.
pub open spec fn first_with_span(ast: SchemaAst, span: WeakSpan) -> Option<int> {
    if exists|i: int| 0 <= i < ast.models@.len() && weak_span(ast.models@[i].span) == span {
        Some(
            choose|i: int|
                0 <= i < ast.models@.len() && weak_span(ast.models@[i].span) == span && forall|
                    j: int,
                | 0 <= j < i ==> weak_span(#[trigger] ast.models@[j].span) != span,
        )
    } else {
        None
    }
}

impl HtmlLayout {
    pub fn new() -> (r: HtmlLayout)
        ensures
            r.html@ == Seq::<char>::empty(),
            r.span == (WeakSpan { start: 0, end: 0 }),
    {
        HtmlLayout { html: String::new(), span: WeakSpan { start: 0, end: 0 } }
    }
}

/// The markup of one model declaration, given the bytes of its text.
pub fn model_markup(bytes: &[u8], m: &AstModel) -> (r: String)
    ensures
        r@ == model_html(bytes@, *m),
{
    let ghost fw = fields_html(bytes@, *m);
    let mut fields: Vec<String> = Vec::new();
    let mut i: usize = 0;
    while i < m.fields.len()
        invariant
            i <= m.fields@.len(),
            fw == fields_html(bytes@, *m),
            fields@.len() == i,
            forall|k: int| 0 <= k < i ==> #[trigger] fields@[k]@ == fw[k],
        decreases m.fields@.len() - i,
    {
        let mut f = PslField::new(String::new());
        f.resolve_field(bytes, &m.fields[i]);
        let h = f.field_markup();
        fields.push(h);
        i = i + 1;
    }
    assert(fields@.map_values(|s: String| s@) =~= fw);
    let ghost bw = block_attributes_html(*m);
    let mut blocks: Vec<String> = Vec::new();
    let mut j: usize = 0;
    while j < m.attributes.len()
        invariant
            j <= m.attributes@.len(),
            bw == block_attributes_html(*m),
            blocks@.len() == j,
            forall|k: int| 0 <= k < j ==> #[trigger] blocks@[k]@ == bw[k],
        decreases m.attributes@.len() - j,
    {
        let a = &m.attributes[j];
        let mut name = String::from_str("@");
        name.append(a.name.as_str());
        let mut attribute = PslAttribute::new(name, false);
        attribute.resolve_arguments(a);
        assert(attribute@.arguments =~= arguments_spec(*a));
        let h = attribute.attribute_markup();
        blocks.push(h);
        j = j + 1;
    }
    assert(blocks@.map_values(|s: String| s@) =~= bw);
    proof {
        reveal_strlit("");
    }
    let mut r = String::new();
    r.append("<div class=\"model-container\">");
    r.append(
        "<div class=\"model-name-open\"><span class=\"keyword model-keyword\">model</span><span class=\"model-name\">",
    );
    let e = escape_html(m.name.as_str());
    r.append(e.as_str());
    r.append("</span><span class=\"open-curly\">{</span></div>");
    r.append("<div class=\"fields-container\">");
    let fj = join_strings(&fields, "");
    r.append(fj.as_str());
    r.append("</div><div class=\"model-attributes\">");
    let bj = join_strings(&blocks, "");
    r.append(bj.as_str());
    r.append("</div><span class=\"close-curly\">}</span></div>");
    r
}

/// One fragment per model declaration, in document order, each tagged with
/// its declaration's span.
pub fn model_fragments(text: &str, ast: &SchemaAst) -> (r: Vec<HtmlLayout>)
    ensures
        fragments_match(text@, *ast, r@),
{
    let bytes = text.as_bytes();
    let mut r: Vec<HtmlLayout> = Vec::new();
    let mut i: usize = 0;
    while i < ast.models.len()
        invariant
            i <= ast.models@.len(),
            bytes@ == encode_utf8(text@),
            r@.len() == i,
            forall|k: int|
                0 <= k < i ==> (#[trigger] r@[k]).html@ == model_html(
                    encode_utf8(text@),
                    ast.models@[k],
                ) && r@[k].span == weak_span(ast.models@[k].span),
        decreases ast.models@.len() - i,
    {
        let m = &ast.models[i];
        let html = model_markup(bytes, m);
        r.push(HtmlLayout { html, span: WeakSpan { start: m.span.start, end: m.span.end } });
        i = i + 1;
    }
    r
}

/// The fragment of the first declaration whose span is exactly `span`.
/// Fails when the parser reported errors, or when no declaration has that
/// span.
pub fn code_highlight(text: &str, ast: &SchemaAst, span: WeakSpan) -> (r: Result<
    CodeHighlightOutput,
    HighlightError,
>)
    ensures
        ast.diagnostics@.len() > 0 <==> r matches Err(HighlightError::UnparsableSchema(_)),
        r matches Err(HighlightError::UnparsableSchema(d)) ==> strings_view(d@) == strings_view(
            ast.diagnostics@,
        ),
        ast.diagnostics@.len() == 0 ==> match first_with_span(*ast, span) {
            Some(i) => r matches Ok(out) && out.code.span == span && out.code.html@ == model_html(
                encode_utf8(text@),
                ast.models@[i],
            ),
            None => r == Err::<CodeHighlightOutput, HighlightError>(
                HighlightError::UnresolvedSpanLookup(span),
            ),
        },
{
    if ast.diagnostics.len() > 0 {
        return Err(HighlightError::UnparsableSchema(crate::ast::copy_strings(&ast.diagnostics)));
    }
    let fragments = model_fragments(text, ast);
    let mut found: Option<HtmlLayout> = None;
    for layout in it: fragments
        invariant
            fragments_match(text@, *ast, it.seq()),
            found is None ==> forall|j: int|
                0 <= j < it.index() ==> weak_span(#[trigger] ast.models@[j].span) != span,
            found matches Some(h) ==> exists|k: int|
                0 <= k < it.index() && weak_span(ast.models@[k].span) == span && (forall|j: int|
                    0 <= j < k ==> weak_span(#[trigger] ast.models@[j].span) != span)
                    && h.span == span && h.html@ == model_html(encode_utf8(text@), ast.models@[k]),
    {
        if found.is_none() && layout.span == span {
            found = Some(layout);
        }
    }
    match found {
        Some(code) => Ok(CodeHighlightOutput { code }),
        None => Err(HighlightError::UnresolvedSpanLookup(span)),
    }
}

} // verus!
