use prismaviz::ast::{
    Argument, AstField, AstModel, Attribute, Expression, FieldArity, FieldType, SchemaAst, Span,
};
use prismaviz::highlight::{code_highlight, model_fragments, HighlightError, HtmlLayout, WeakSpan};
use prismaviz::markup::{
    ArgumentValueKind, CombinedArgument, NonCombinedArgument, PslAttribute, PslField,
};
use prismaviz::text::{escape_html, join_strings, text_eq};

fn s(x: &str) -> String {
    x.to_string()
}

fn idents(names: &[&str]) -> Expression {
    Expression::Array(names.iter().map(|n| Expression::ConstantValue(s(n))).collect())
}

const TEXT: &str = "model A { x Int @id\n @@index([x]) }\nmodel B { y String }";

fn model_a() -> AstModel {
    AstModel {
        name: s("A"),
        fields: vec![AstField {
            name: s("x"),
            field_type: FieldType::Supported(s("Int"), Span { start: 12, end: 15 }),
            arity: FieldArity::Required,
            attributes: vec![Attribute { name: s("id"), arguments: vec![], empty_arguments: vec![] }],
        }],
        attributes: vec![Attribute {
            name: s("index"),
            arguments: vec![Argument { name: None, value: idents(&["x"]), value_text: s("[x]") }],
            empty_arguments: vec![],
        }],
        span: Span { start: 0, end: 35 },
    }
}

fn model_b() -> AstModel {
    AstModel {
        name: s("B"),
        fields: vec![AstField {
            name: s("y"),
            field_type: FieldType::Supported(s("String"), Span { start: 48, end: 54 }),
            arity: FieldArity::Required,
            attributes: vec![],
        }],
        attributes: vec![],
        span: Span { start: 36, end: 56 },
    }
}

fn ast() -> SchemaAst {
    SchemaAst { models: vec![model_a(), model_b()], diagnostics: vec![] }
}

const A_HTML: &str = "<div class=\"model-container\"><div class=\"model-name-open\">\
    <span class=\"keyword model-keyword\">model</span><span class=\"model-name\">A</span>\
    <span class=\"open-curly\">{</span></div><div class=\"fields-container\">\
    <div class=\"field-wrapper\"><span class=\"field-name\">x</span>\
    <span class=\"field-type\">Int<span class=\"field-modifier\"></span></span>\
    <span class=\"attributes\"><span class=\"attribute-name\">@id</span></span></div>\
    </div><div class=\"model-attributes\">\
    <span class=\"attributes\"><span class=\"attribute-name\">@@index</span>\
    <span class=\"open-argument\">(</span><span class=\"arguments-container\">\
    <span class=\"argument-type\">[x]</span></span><span class=\"close-argument\">)</span></span>\
    </div><span class=\"close-curly\">}</span></div>";

#[test]
fn escapes_markup_characters() {
    assert_eq!(escape_html("<a href=\"x\">&'</a>"), "&lt;a href=&quot;x&quot;&gt;&amp;&#39;&lt;/a&gt;");
    assert_eq!(escape_html("plain é"), "plain é");
    assert_eq!(escape_html(""), "");
}

#[test]
fn compares_texts_exactly() {
    assert!(text_eq("relation", "relation"));
    assert!(!text_eq("relation", "relations"));
    assert!(!text_eq("é", "e"));
}

#[test]
fn joins_with_separator() {
    assert_eq!(join_strings(&vec![s("a"), s("b"), s("c")], ", "), "a, b, c");
    assert_eq!(join_strings(&vec![], ", "), "");
}

#[test]
fn fragment_of_a_model() {
    let f = model_fragments(TEXT, &ast());
    assert_eq!(f.len(), 2);
    assert_eq!(f[0].html, A_HTML);
    assert_eq!(f[0].span, WeakSpan { start: 0, end: 35 });
    assert_eq!(f[1].span, WeakSpan { start: 36, end: 56 });
}

#[test]
fn fragments_are_deterministic() {
    let a = model_fragments(TEXT, &ast());
    let b = model_fragments(TEXT, &ast());
    let ha: Vec<(&String, WeakSpan)> = a.iter().map(|x| (&x.html, x.span)).collect();
    let hb: Vec<(&String, WeakSpan)> = b.iter().map(|x| (&x.html, x.span)).collect();
    assert_eq!(ha, hb);
}

#[test]
fn lookup_by_exact_span() {
    let out = code_highlight(TEXT, &ast(), WeakSpan { start: 0, end: 35 }).ok().unwrap();
    assert_eq!(out.code.html, A_HTML);
    let out = code_highlight(TEXT, &ast(), WeakSpan { start: 36, end: 56 }).ok().unwrap();
    assert!(out.code.html.contains("<span class=\"model-name\">B</span>"));
}

#[test]
fn lookup_of_unknown_span_is_not_found() {
    match code_highlight(TEXT, &ast(), WeakSpan { start: 0, end: 34 }) {
        Err(HighlightError::UnresolvedSpanLookup(sp)) => assert_eq!(sp, WeakSpan { start: 0, end: 34 }),
        _ => panic!("expected not found"),
    }
}

#[test]
fn lookup_reports_parser_errors() {
    let bad = SchemaAst { models: vec![model_a()], diagnostics: vec![s("boom")] };
    match code_highlight(TEXT, &bad, WeakSpan { start: 0, end: 35 }) {
        Err(HighlightError::UnparsableSchema(d)) => assert_eq!(d, vec![s("boom")]),
        _ => panic!("expected parser errors"),
    }
}

#[test]
fn model_name_is_escaped() {
    let text = "model X { }";
    let m = AstModel { name: s("<X>"), fields: vec![], attributes: vec![], span: Span { start: 0, end: 11 } };
    let f = model_fragments(text, &SchemaAst { models: vec![m], diagnostics: vec![] });
    assert!(f[0].html.contains("<span class=\"model-name\">&lt;X&gt;</span>"));
}

#[test]
fn relation_attribute_lists_fields_and_references() {
    let text = "author User @relation(fields: [authorId], references: [id])";
    let field = AstField {
        name: s("author"),
        field_type: FieldType::Supported(s("User"), Span { start: 7, end: 11 }),
        arity: FieldArity::Required,
        attributes: vec![Attribute {
            name: s("relation"),
            arguments: vec![
                Argument { name: Some(s("fields")), value: idents(&["authorId"]), value_text: s("[authorId]") },
                Argument { name: Some(s("references")), value: idents(&["id"]), value_text: s("[id]") },
            ],
            empty_arguments: vec![],
        }],
    };
    let mut f = PslField::new(s(""));
    f.resolve_field(text.as_bytes(), &field);
    assert!(f.is_relational);
    assert_eq!(f.field_type, "User");
    assert_eq!(
        f.resolve_field_type_markup(),
        "<span class=\"field-type relational-field-type\">User<span class=\"field-modifier\"></span></span>"
    );
    let badges = f.resolve_attributes_markup();
    let expected = "<span class=\"attributes\"><span class=\"attribute-name\">@relation</span>\
    <span class=\"open-argument\">(</span>\
    <span class=\"arguments-container\"><span class=\"argument-name argument-name-is-relational\">fields:</span>\
    <span class=\"argument-list-container\"><span class=\"open square-bracket\">[</span>\
    <span class=\"argument-list-item\">authorId</span>\
    <span class=\"close square-bracket\">]</span></span></span>\
    <span>,</span>\
    <span class=\"arguments-container\"><span class=\"argument-name argument-name-is-relational\">references:</span>\
    <span class=\"argument-list-container\"><span class=\"open square-bracket\">[</span>\
    <span class=\"argument-list-item\">id</span>\
    <span class=\"close square-bracket\">]</span></span></span>\
    <span class=\"close-argument\">)</span></span>";
    assert_eq!(badges, vec![s(expected)]);
}

#[test]
fn list_field_shows_brackets() {
    let text = "posts Post[]";
    let field = AstField {
        name: s("posts"),
        field_type: FieldType::Supported(s("Post"), Span { start: 6, end: 10 }),
        arity: FieldArity::List,
        attributes: vec![],
    };
    let mut f = PslField::new(s(""));
    f.resolve_field(text.as_bytes(), &field);
    assert_eq!(f.modifier, "[]");
    assert_eq!(f.resolve_field_name_markup(), "<span class=\"field-name\">posts</span>");
}

#[test]
fn argument_markup_pieces() {
    let c = CombinedArgument { name: s("map"), value: s("\"a<b\""), kind: ArgumentValueKind::StringLiteral, items: vec![] };
    assert_eq!(
        c.markup(false),
        "<span class=\"arguments-container\"><span class=\"argument-name\">map:</span><span class=\"argument-type\">&quot;a&lt;b&quot;</span></span>"
    );
    assert_eq!(
        c.markup(true),
        "<span class=\"arguments-container\"><span class=\"argument-name argument-name-is-relational\">map:</span><span class=\"argument-type argument-type-is-relational\">&quot;a&lt;b&quot;</span></span>"
    );
    let n = NonCombinedArgument { name: s("fields") };
    assert_eq!(n.markup(), "<span class=\"argument-name\">fields</span>");
}

#[test]
fn attribute_without_arguments_has_no_parentheses() {
    let a = PslAttribute::new(s("id"), false);
    assert_eq!(a.arugments_open(), "");
    assert_eq!(a.arugments_close(), "");
    assert_eq!(a.attribute_name_markup(), "<span class=\"attribute-name\">@id</span>");
    assert!(a.arguments_markup().is_empty());
}

#[test]
fn empty_arguments_take_precedence() {
    let attr = Attribute {
        name: s("relation"),
        arguments: vec![Argument { name: None, value: Expression::NumericValue(s("1")), value_text: s("1") }],
        empty_arguments: vec![s("fields")],
    };
    let mut a = PslAttribute::new(s("relation"), true);
    a.resolve_arguments(&attr);
    assert_eq!(a.arguments.len(), 1);
    assert_eq!(a.arguments_markup(), vec![s("<span class=\"argument-name\">fields</span>")]);
    assert_eq!(a.arugments_open(), "<span class=\"open-argument\">(</span>");
    assert_eq!(a.arugments_close(), "<span class=\"close-argument\">)</span>");
}

#[test]
fn new_layout_is_empty() {
    let h = HtmlLayout::new();
    assert_eq!(h.html, "");
    assert_eq!(h.span, WeakSpan { start: 0, end: 0 });
}
