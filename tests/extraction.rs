use prismaviz::ast::{
    Argument, AstField, AstModel, Attribute, Expression, FieldArity, FieldType, SchemaAst, Span,
};
use prismaviz::attributes::{BlockTags, ModelAttributes};
use prismaviz::constraints::{ArgumentType, Constraint, Contraints};
use prismaviz::field_type::{resolve, DataTypes, PrismaVizFieldType};
use prismaviz::model::{extract_models, span_text, ExtractError, SchemaVisualiser};
use prismaviz::relations::{RelationShips, RelationshipType};

const SCHEMA: &str = "model User { id Int @id @default(autoincrement())  name String  posts Post[] }\nmodel Post  { id Int @id  title String  authorId Int  author User @relation(fields: [authorId], references: [id]) }\n";

fn s(x: &str) -> String {
    x.to_string()
}

fn bare(name: &str) -> Attribute {
    Attribute { name: s(name), arguments: vec![], empty_arguments: vec![] }
}

fn with_args(name: &str, arguments: Vec<Argument>) -> Attribute {
    Attribute { name: s(name), arguments, empty_arguments: vec![] }
}

fn arg(name: Option<&str>, value: Expression, text: &str) -> Argument {
    Argument { name: name.map(s), value, value_text: s(text) }
}

fn idents(names: &[&str]) -> Expression {
    Expression::Array(names.iter().map(|n| Expression::ConstantValue(s(n))).collect())
}

/// Span of the `occurrence`-th appearance of `needle` in `text`.
fn span_of(text: &str, needle: &str, occurrence: usize) -> Span {
    let start = text.match_indices(needle).nth(occurrence).unwrap().0;
    Span { start, end: start + needle.len() }
}

fn field(text: &str, name: &str, ty: &str, ty_at: usize, arity: FieldArity, attributes: Vec<Attribute>) -> AstField {
    let needle = format!(" {}", ty);
    let sp = span_of(text, &needle, ty_at);
    AstField {
        name: s(name),
        field_type: FieldType::Supported(s(ty), Span { start: sp.start + 1, end: sp.end }),
        arity,
        attributes,
    }
}

fn line_span(text: &str, line: usize) -> Span {
    let mut start = 0;
    for (i, l) in text.split('\n').enumerate() {
        if i == line {
            return Span { start, end: start + l.len() };
        }
        start += l.len() + 1;
    }
    panic!("no such line");
}

fn example_ast() -> SchemaAst {
    let t = SCHEMA;
    let user = AstModel {
        name: s("User"),
        span: line_span(t, 0),
        attributes: vec![],
        fields: vec![
            field(t, "id", "Int", 0, FieldArity::Required, vec![
                bare("id"),
                with_args("default", vec![arg(None, Expression::Function(s("autoincrement")), "autoincrement()")]),
            ]),
            field(t, "name", "String", 0, FieldArity::Required, vec![]),
            field(t, "posts", "Post", 0, FieldArity::List, vec![]),
        ],
    };
    let post = AstModel {
        name: s("Post"),
        span: line_span(t, 1),
        attributes: vec![],
        fields: vec![
            field(t, "id", "Int", 1, FieldArity::Required, vec![bare("id")]),
            field(t, "title", "String", 1, FieldArity::Required, vec![]),
            field(t, "authorId", "Int", 2, FieldArity::Required, vec![]),
            field(t, "author", "User", 1, FieldArity::Required, vec![with_args("relation", vec![
                arg(Some("fields"), idents(&["authorId"]), "[authorId]"),
                arg(Some("references"), idents(&["id"]), "[id]"),
            ])]),
        ],
    };
    SchemaAst { models: vec![user, post], diagnostics: vec![] }
}

#[test]
fn resolve_scalar_required() {
    let (d, m) = resolve("Int", FieldArity::Required);
    assert_eq!(d, DataTypes::Int);
    assert_eq!(m, "");
}

#[test]
fn resolve_relation_list() {
    let (d, m) = resolve("Post", FieldArity::List);
    assert_eq!(d, DataTypes::Relational(s("Post")));
    assert_eq!(m, "[]");
}

#[test]
fn resolve_relation_optional() {
    let (d, m) = resolve("Post", FieldArity::Optional);
    assert_eq!(d, DataTypes::Relational(s("Post")));
    assert_eq!(m, "?");
}

#[test]
fn resolve_string_and_empty_names() {
    assert_eq!(resolve("String", FieldArity::Required).0, DataTypes::VarChar);
    assert_eq!(resolve("DateTime", FieldArity::Required).0, DataTypes::DateTime);
    assert_eq!(resolve("", FieldArity::Required).0, DataTypes::Unknown);
}

#[test]
fn field_type_shows_name_and_modifier() {
    let mut t = PrismaVizFieldType::new();
    assert_eq!(t.resolve_with_modifier(), "");
    t.resolve_data_type(s("Post"), FieldArity::List);
    assert_eq!(t.get_data_type(), "Post");
    assert_eq!(t.resolve_with_modifier(), "Post[]");
    t.resolve_data_type(s("String"), FieldArity::Optional);
    assert_eq!(t.resolve_with_modifier(), "String?");
}

#[test]
fn relation_fields_and_references() {
    let attrs = vec![with_args("relation", vec![
        arg(Some("fields"), idents(&["authorId"]), "[authorId]"),
        arg(Some("references"), idents(&["id"]), "[id]"),
    ])];
    let mut r = RelationShips::new();
    r.populate(&attrs);
    assert_eq!(r.fields(), vec![s("authorId")]);
    assert_eq!(r.references(), vec![s("id")]);
    assert_eq!(r.kind, RelationshipType::Unknown);
}

#[test]
fn relation_ignores_other_arguments_and_attributes() {
    let attrs = vec![
        with_args("relation", vec![
            arg(None, Expression::StringValue(s("AuthorPosts")), "\"AuthorPosts\""),
            arg(Some("name"), idents(&["x"]), "[x]"),
            arg(Some("fields"), idents(&["a", "b"]), "[a, b]"),
            arg(Some("references"), Expression::ConstantValue(s("id")), "id"),
        ]),
        with_args("other", vec![arg(Some("fields"), idents(&["c"]), "[c]")]),
    ];
    let mut r = RelationShips::new();
    r.populate(&attrs);
    assert_eq!(r.fields(), vec![s("a"), s("b")]);
    assert!(r.references().is_empty());
}

#[test]
fn constraints_skip_relation_and_map_arguments() {
    let attrs = vec![
        bare("id"),
        with_args("default", vec![arg(None, Expression::Function(s("autoincrement")), "autoincrement()")]),
        with_args("relation", vec![arg(Some("fields"), idents(&["a"]), "[a]")]),
        with_args("db.VarChar", vec![arg(None, Expression::NumericValue(s("200")), "200")]),
        with_args("map", vec![
            arg(Some("name"), Expression::StringValue(s("col")), "\"col\""),
            arg(None, Expression::ConstantValue(s("Cascade")), "Cascade"),
        ]),
    ];
    let mut c = Contraints::new();
    c.populate(&attrs);
    assert_eq!(c.constraints.len(), 4);
    assert_eq!(c.constraints[0], Constraint { name: s("id"), argument: vec![] });
    assert_eq!(
        c.constraints[1],
        Constraint { name: s("default"), argument: vec![ArgumentType::FunctionCall(s("autoincrement()"))] }
    );
    assert_eq!(c.constraints[2].argument, vec![ArgumentType::Number(s("200"))]);
    assert_eq!(c.constraints[3].argument, vec![ArgumentType::StringLiteral(s("col"))]);
    assert_eq!(c.to_string(), "id\ndefault(autoincrement())\ndb.VarChar(200)\nmap(col)");
    assert_eq!(c.as_vec(), vec![s("id"), s("default(autoincrement())"), s("db.VarChar(200)"), s("map(col)")]);
}

#[test]
fn constraint_text_joins_arguments_with_commas() {
    let c = Constraint {
        name: s("f"),
        argument: vec![ArgumentType::Number(s("1")), ArgumentType::StringLiteral(s("x"))],
    };
    assert_eq!(c.to_string(), "f(1,x)");
    assert_eq!(Constraint { name: s("unique"), argument: vec![] }.to_string(), "unique");
}

#[test]
fn block_attributes_classify_fields() {
    let attrs = vec![
        with_args("id", vec![arg(None, idents(&["a", "b"]), "[a, b]")]),
        with_args("unique", vec![arg(None, idents(&["b"]), "[b]"), arg(Some("name"), idents(&["c"]), "[c]")]),
        with_args("index", vec![arg(None, idents(&["c"]), "[c]")]),
        with_args("map", vec![arg(None, idents(&["d"]), "[d]")]),
    ];
    let mut m = ModelAttributes::new();
    m.populate(&attrs);
    assert_eq!(m.values.len(), 4);
    assert_eq!(m.classify("a"), BlockTags { is_indexed: false, is_unique: false, is_id: true });
    assert_eq!(m.classify("b"), BlockTags { is_indexed: false, is_unique: true, is_id: true });
    assert_eq!(m.classify("c"), BlockTags { is_indexed: true, is_unique: false, is_id: false });
    assert_eq!(m.classify("d"), BlockTags { is_indexed: false, is_unique: false, is_id: false });
    assert_eq!(m.is_index("c"), "true");
    assert_eq!(m.is_index("a"), "false");
    assert_eq!(m.constraint_strings("b"), "id\nunique");
    assert_eq!(m.constraint_strings("c"), "");
}

#[test]
fn end_to_end_example() {
    let ast = example_ast();
    let models = extract_models(SCHEMA, &ast).unwrap();
    assert_eq!(models.len(), 2);
    assert_eq!(models[0].name, "User");
    assert_eq!(models[1].name, "Post");
    let posts = &models[0].fields[2];
    assert_eq!(posts.name, "posts");
    assert_eq!(posts.field_type.data_type, DataTypes::Relational(s("Post")));
    assert_eq!(posts.field_type.modifier, "[]");
    let author = &models[1].fields[3];
    assert_eq!(author.relation_ships.fields(), vec![s("authorId")]);
    assert_eq!(author.relation_ships.references(), vec![s("id")]);
    let post_id = &models[1].fields[0];
    assert!(post_id.constraints.constraints.contains(&Constraint { name: s("id"), argument: vec![] }));
    assert_eq!(models[0].fields[0].constraints.to_string(), "id\ndefault(autoincrement())");
}

#[test]
fn raw_text_is_the_span_of_the_text() {
    let ast = example_ast();
    let models = extract_models(SCHEMA, &ast).unwrap();
    for (m, a) in models.iter().zip(ast.models.iter()) {
        assert_eq!(m.code, &SCHEMA[a.span.start..a.span.end]);
        assert_eq!(m.span, a.span);
    }
    assert!(models[0].code.starts_with("model User {"));
    assert!(models[1].code.ends_with("}"));
}

#[test]
fn no_models_gives_empty_extraction() {
    let ast = SchemaAst { models: vec![], diagnostics: vec![] };
    assert_eq!(extract_models("", &ast).unwrap().len(), 0);
}

#[test]
fn duplicate_models_are_kept() {
    let text = "model A { }\nmodel A { }";
    let mk = |line| AstModel { name: s("A"), fields: vec![], attributes: vec![], span: line_span(text, line) };
    let ast = SchemaAst { models: vec![mk(0), mk(1)], diagnostics: vec![] };
    let models = extract_models(text, &ast).unwrap();
    assert_eq!(models.len(), 2);
    assert_eq!(models[1].span.start, 12);
}

#[test]
fn field_id_kept_beside_block_id() {
    let text = "model T { id Int @id\n @@id([id]) }";
    let m = AstModel {
        name: s("T"),
        fields: vec![field(text, "id", "Int", 0, FieldArity::Required, vec![bare("id")])],
        attributes: vec![with_args("id", vec![arg(None, idents(&["id"]), "[id]")])],
        span: Span { start: 0, end: text.len() },
    };
    let ast = SchemaAst { models: vec![m], diagnostics: vec![] };
    let models = extract_models(text, &ast).unwrap();
    let f = &models[0].fields[0];
    assert_eq!(f.constraints.constraints, vec![Constraint { name: s("id"), argument: vec![] }]);
    assert!(f.is_id);
    assert!(!f.is_unique);
}

#[test]
fn optional_and_list_modifiers_come_from_arity_and_text() {
    let text = "model T { a String? b Int[] c Int }";
    let m = AstModel {
        name: s("T"),
        fields: vec![
            field(text, "a", "String", 0, FieldArity::Optional, vec![]),
            field(text, "b", "Int", 0, FieldArity::List, vec![]),
            field(text, "c", "Int", 1, FieldArity::Required, vec![]),
        ],
        attributes: vec![],
        span: Span { start: 0, end: text.len() },
    };
    let ast = SchemaAst { models: vec![m], diagnostics: vec![] };
    let models = extract_models(text, &ast).unwrap();
    let shown: Vec<String> = models[0].fields.iter().map(|f| f.field_type.resolve_with_modifier()).collect();
    assert_eq!(shown, vec![s("String?"), s("Int[]"), s("Int")]);
}

#[test]
fn unsupported_type_keeps_native_text() {
    let text = "model T { g Unsupported(\"polygon\") }";
    let f = AstField {
        name: s("g"),
        field_type: FieldType::Unsupported(s("polygon")),
        arity: FieldArity::Optional,
        attributes: vec![],
    };
    let m = AstModel { name: s("T"), fields: vec![f], attributes: vec![], span: Span { start: 0, end: text.len() } };
    let ast = SchemaAst { models: vec![m], diagnostics: vec![] };
    let models = extract_models(text, &ast).unwrap();
    assert_eq!(models[0].fields[0].field_type.data_type, DataTypes::Unsupported(s("polygon")));
    assert_eq!(models[0].fields[0].field_type.resolve_with_modifier(), "polygon?");
}

#[test]
fn parser_errors_are_reported() {
    let ast = SchemaAst { models: vec![], diagnostics: vec![s("unexpected token")] };
    match extract_models("model {", &ast) {
        Err(ExtractError::UnparsableSchema(d)) => assert_eq!(d, vec![s("unexpected token")]),
        other => panic!("unexpected {:?}", other.map(|v| v.len())),
    }
}

#[test]
fn span_past_text_is_reported() {
    let text = "model A { }";
    let bad = Span { start: 0, end: 40 };
    let ast = SchemaAst {
        models: vec![AstModel { name: s("A"), fields: vec![], attributes: vec![], span: bad }],
        diagnostics: vec![],
    };
    match extract_models(text, &ast) {
        Err(ExtractError::SpanOutOfRange(sp)) => assert_eq!(sp, bad),
        other => panic!("unexpected {:?}", other.map(|v| v.len())),
    }
}

#[test]
fn span_inside_a_character_is_refused() {
    let text = "é model";
    assert_eq!(span_text(text, Span { start: 1, end: 3 }), None);
    assert_eq!(span_text(text, Span { start: 0, end: 2 }), Some(s("é")));
    assert_eq!(span_text(text, Span { start: 3, end: 2 }), None);
}

#[test]
fn visualiser_parse_and_table_rows() {
    let mut v = SchemaVisualiser::new(s(SCHEMA));
    v.parse(&example_ast()).unwrap();
    let models = v.get_models();
    let rows = models[1].table_rows();
    assert_eq!(rows.len(), 4);
    assert_eq!(rows[0], vec![s("id"), s("Int"), s("id\n"), s(""), s(""), s("false")]);
    assert_eq!(rows[3], vec![s("author"), s("User"), s("\n"), s("authorId"), s("id"), s("false")]);
}

#[test]
fn visualiser_keeps_models_on_failure() {
    let mut v = SchemaVisualiser::new(s(SCHEMA));
    v.parse(&example_ast()).unwrap();
    let bad = SchemaAst { models: vec![], diagnostics: vec![s("e")] };
    assert!(v.parse(&bad).is_err());
    assert_eq!(v.models.len(), 2);
}
