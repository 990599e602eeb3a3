//! The model assembler: one semantic model per model declaration, in
//! document order, with its exact span and source text.
use vstd::prelude::*;
use vstd::string::StringSliceAdditionalSpecFns;
use vstd::utf8::{encode_utf8, is_char_boundary};
use crate::ast::{strings_view, AstField, AstModel, FieldArity, FieldType, SchemaAst, Span};
use crate::attributes::{block_items, labels_of, tags_of, BlockTagView, BlockTags, ModelAttributes};
use crate::constraints::{constraint_texts, field_constraints, ConstraintView, Contraints};
use crate::field_type::{
    modifier_of, resolve_type, shown_type_name, DataTypeView, PrismaVizFieldType,
};
use crate::relations::{
    own_fields, referenced_fields, relation_items, RelationShips, RelationsView, RelationshipType,
};
use crate::text::{join, join_strings};

verus! {

broadcast use vstd::seq_lib::group_seq_properties;

/// The byte `[`.
pub const OPEN_BRACKET: u8 = 0x5B;

/// The byte `]`.
pub const CLOSE_BRACKET: u8 = 0x5D;

/// Why a schema text yields no models.
#[derive(Debug)]
pub enum ExtractError {
    /// The parser reported these errors on the text.
    UnparsableSchema(Vec<String>),
    /// A declaration's span does not lie on character boundaries of the text.
    SpanOutOfRange(Span),
}

/// Whether a span lies in the text, with both ends on character boundaries.
pub open spec fn span_ok(bytes: Seq<u8>, span: Span) -> bool {
    &&& span.start <= span.end <= bytes.len()
    &&& is_char_boundary(bytes, span.start as int)
    &&& is_char_boundary(
        bytes.subrange(span.start as int, bytes.len() as int),
        span.end - span.start,
    )
}

/// Whether the two bytes right after a span are `[]`.
pub open spec fn list_suffix(bytes: Seq<u8>, span: Span) -> bool {
    &&& span.end + 2 <= bytes.len()
    &&& bytes[span.end as int] == OPEN_BRACKET
    &&& bytes[span.end + 1] == CLOSE_BRACKET
}

/// A field's arity as shown: a list only when `[]` follows the type name in
/// the text, else optional or required as declared.
pub open spec fn shown_arity(bytes: Seq<u8>, f: AstField) -> FieldArity {
    match f.field_type {
        FieldType::Supported(_, span) => if list_suffix(bytes, span) {
            FieldArity::List
        } else if f.arity == FieldArity::Optional {
            FieldArity::Optional
        } else {
            FieldArity::Required
        },
        FieldType::Unsupported(_) => f.arity,
    }
}

/// A field's data type: the resolved type name, or the native type of an
/// `Unsupported(...)` type.
pub open spec fn field_data_type(f: AstField) -> DataTypeView {
    match f.field_type {
        FieldType::Supported(name, _) => resolve_type(name@),
        FieldType::Unsupported(t) => DataTypeView::Unsupported(t@),
    }
}

/// One field of a semantic model.
pub struct PrismaVizModelField {
    pub name: String,
    pub field_type: PrismaVizFieldType,
    pub constraints: Contraints,
    pub relation_ships: RelationShips,
    pub is_indexed: bool,
    pub is_unique: bool,
    pub is_id: bool,
}

pub struct FieldView {
    pub name: Seq<char>,
    pub data_type: DataTypeView,
    pub modifier: Seq<char>,
    pub constraints: Seq<ConstraintView>,
    pub relations: Seq<RelationsView>,
    pub kind: RelationshipType,
    pub tags: BlockTags,
}

impl View for PrismaVizModelField {
    type V = FieldView;

    open spec fn view(&self) -> FieldView {
        FieldView {
            name: self.name@,
            data_type: self.field_type.data_type@,
            modifier: self.field_type.modifier@,
            constraints: self.constraints@,
            relations: self.relation_ships@.relations,
            kind: self.relation_ships@.kind,
            tags: BlockTags {
                is_indexed: self.is_indexed,
                is_unique: self.is_unique,
                is_id: self.is_id,
            },
        }
    }
}

/// The semantic field that a field declaration gives, with the block tags
/// of its model.
pub open spec fn field_spec(bytes: Seq<u8>, f: AstField, block: Seq<BlockTagView>) -> FieldView {
    FieldView {
        name: f.name@,
        data_type: field_data_type(f),
        modifier: modifier_of(shown_arity(bytes, f)),
        constraints: field_constraints(f.attributes@),
        relations: relation_items(f.attributes@),
        kind: RelationshipType::Unknown,
        tags: tags_of(block, f.name@),
    }
}

/// One semantic model.
pub struct PrismaVizModel {
    pub name: String,
    pub fields: Vec<PrismaVizModelField>,
    pub code: String,
    pub span: Span,
    pub attributes: ModelAttributes,
}

pub struct ModelView {
    pub name: Seq<char>,
    pub fields: Seq<FieldView>,
    pub code: Seq<char>,
    pub span: Span,
    pub block: Seq<BlockTagView>,
}

impl View for PrismaVizModel {
    type V = ModelView;

    open spec fn view(&self) -> ModelView {
        ModelView {
            name: self.name@,
            fields: self.fields@.map_values(|f: PrismaVizModelField| f@),
            code: self.code@,
            span: self.span,
            block: self.attributes@,
        }
    }
}

/// Whether a semantic model is the one that a declaration gives in this
/// text: same name and span, the source bytes of the span as its code, the
/// block tags of its block attributes, and one field per field declaration.
pub open spec fn model_matches(text: Seq<char>, m: AstModel, r: ModelView) -> bool {
    let bytes = encode_utf8(text);
    &&& r.name == m.name@
    &&& r.span == m.span
    &&& encode_utf8(r.code) == bytes.subrange(m.span.start as int, m.span.end as int)
    &&& r.block == block_items(m.attributes@)
    &&& r.fields == m.fields@.map_values(|f: AstField| field_spec(bytes, f, r.block))
}

/// Whether every declaration's span lies on character boundaries.
pub open spec fn spans_ok(text: Seq<char>, ast: SchemaAst) -> bool {
    forall|i: int|
        0 <= i < ast.models@.len() ==> span_ok(encode_utf8(text), #[trigger] ast.models@[i].span)
}

/// Whether the models are those of the declarations, one each, in order.
pub open spec fn models_match(text: Seq<char>, ast: SchemaAst, r: Seq<ModelView>) -> bool {
    &&& r.len() == ast.models@.len()
    &&& forall|i: int| 0 <= i < r.len() ==> model_matches(text, ast.models@[i], #[trigger] r[i])
}

pub open spec fn models_view(v: Seq<PrismaVizModel>) -> Seq<ModelView> {
    v.map_values(|m: PrismaVizModel| m@)
}

/// The source text of a span, when it lies on character boundaries.
pub fn span_text(text: &str, span: Span) -> (r: Option<String>)
    ensures
        r is Some <==> span_ok(encode_utf8(text@), span),
        r is Some ==> encode_utf8(r->0@) == encode_utf8(text@).subrange(
            span.start as int,
            span.end as int,
        ),
{
    if span.start > span.end || span.end > text.as_bytes().len() {
        return None;
    }
    if !text.is_char_boundary(span.start) {
        return None;
    }
    let (_, rest) = text.split_at(span.start);
    if !rest.is_char_boundary(span.end - span.start) {
        return None;
    }
    let (code, _) = rest.split_at(span.end - span.start);
    assert(code.spec_bytes() =~= encode_utf8(text@).subrange(span.start as int, span.end as int));
    Some(code.to_owned())
}

/// The arity shown for a field.
pub(crate) fn field_arity(bytes: &[u8], f: &AstField) -> (r: FieldArity)
    ensures
        r == shown_arity(bytes@, *f),
{
    match &f.field_type {
        FieldType::Supported(_, span) => {
            let end = span.end;
            if end <= bytes.len() && bytes.len() - end >= 2 && bytes[end] == OPEN_BRACKET
                && bytes[end + 1] == CLOSE_BRACKET {
                FieldArity::List
            } else if f.arity == FieldArity::Optional {
                FieldArity::Optional
            } else {
                FieldArity::Required
            }
        },
        FieldType::Unsupported(_) => f.arity,
    }
}

impl PrismaVizModelField {
    /// A field with this type and these block tags, and no constraints or
    /// relationship yet.
    pub fn new(name: String, field_type: PrismaVizFieldType, tags: BlockTags) -> (r:
        PrismaVizModelField)
        ensures
            r@.name == name@,
            r@.data_type == field_type.data_type@,
            r@.modifier == field_type.modifier@,
            r@.constraints == Seq::<ConstraintView>::empty(),
            r@.relations == Seq::<RelationsView>::empty(),
            r@.kind == RelationshipType::Unknown,
            r@.tags == tags,
    {
        PrismaVizModelField {
            name,
            field_type,
            constraints: Contraints::new(),
            relation_ships: RelationShips::new(),
            is_indexed: tags.is_indexed,
            is_unique: tags.is_unique,
            is_id: tags.is_id,
        }
    }

    /// The semantic field for a field declaration, given the text's bytes
    /// and the block attributes of its model.
    pub fn from_ast(bytes: &[u8], f: &AstField, block: &ModelAttributes) -> (r: PrismaVizModelField)
        ensures
            r@ == field_spec(bytes@, *f, block@),
    {
        let mut field_type = PrismaVizFieldType::new();
        match &f.field_type {
            FieldType::Supported(name, _) => {
                field_type.resolve_data_type(name.clone(), field_arity(bytes, f));
            },
            FieldType::Unsupported(t) => {
                field_type.data_type = crate::field_type::DataTypes::Unsupported(t.clone());
                field_type.modifier = crate::field_type::modifier_text(f.arity);
            },
        }
        let tags = block.classify(f.name.as_str());
        let mut r = PrismaVizModelField::new(f.name.clone(), field_type, tags);
        r.constraints.populate(&f.attributes);
        r.relation_ships.populate(&f.attributes);
        assert(r@.constraints =~= field_constraints(f.attributes@));
        assert(r@.relations =~= relation_items(f.attributes@));
        r
    }
}

impl PrismaVizModel {
    /// A model with no fields and no block attributes yet.
    pub fn new(name: String, code: String, span: Span) -> (r: PrismaVizModel)
        ensures
            r@.name == name@,
            r@.code == code@,
            r@.span == span,
            r@.fields == Seq::<FieldView>::empty(),
            r@.block == Seq::<BlockTagView>::empty(),
    {
        let r = PrismaVizModel { name, fields: Vec::new(), code, span, attributes: ModelAttributes::new() };
        assert(r@.fields =~= Seq::<FieldView>::empty());
        r
    }

    /// The semantic model for a declaration whose span lies on character
    /// boundaries of the text.
    pub fn from_ast(text: &str, m: &AstModel) -> (r: Option<PrismaVizModel>)
        ensures
            r is Some <==> span_ok(encode_utf8(text@), m.span),
            r is Some ==> model_matches(text@, *m, r->0@),
    {
        let code = match span_text(text, m.span) {
            Some(c) => c,
            None => return None,
        };
        let bytes = text.as_bytes();
        let mut r = PrismaVizModel::new(m.name.clone(), code, m.span);
        r.attributes.populate(&m.attributes);
        assert(r.attributes@ =~= block_items(m.attributes@));
        let ghost block = r.attributes@;
        let mut i: usize = 0;
        while i < m.fields.len()
            invariant
                i <= m.fields@.len(),
                bytes@ == encode_utf8(text@),
                r@.name == m.name@,
                r@.span == m.span,
                encode_utf8(r@.code) == encode_utf8(text@).subrange(
                    m.span.start as int,
                    m.span.end as int,
                ),
                r@.block == block,
                block == block_items(m.attributes@),
                r@.fields == m.fields@.take(i as int).map_values(
                    |f: AstField| field_spec(bytes@, f, block),
                ),
            decreases m.fields@.len() - i,
        {
            let f = PrismaVizModelField::from_ast(bytes, &m.fields[i], &r.attributes);
            let ghost prev = r@.fields;
            let ghost fv = f@;
            assert(fv == field_spec(bytes@, m.fields@[i as int], block));
            r.fields.push(f);
            assert(r@.fields =~= prev.push(fv));
            assert(r@.fields =~= m.fields@.take(i + 1).map_values(
                |f: AstField| field_spec(bytes@, f, block),
            ));
            i = i + 1;
        }
        assert(m.fields@.take(m.fields@.len() as int) =~= m.fields@);
        Some(r)
    }
}

/// Whether the first `n` declarations' spans lie on character boundaries.
pub open spec fn spans_ok_upto(text: Seq<char>, ast: SchemaAst, n: int) -> bool {
    forall|i: int| 0 <= i < n ==> span_ok(encode_utf8(text), #[trigger] ast.models@[i].span)
}

/// Extracts one semantic model per model declaration, in document order.
/// Fails when the parser reported errors, or, naming the first such span,
/// when a declaration's span does not lie on character boundaries.
pub fn extract_models(text: &str, ast: &SchemaAst) -> (r: Result<Vec<PrismaVizModel>, ExtractError>)
    ensures
        ast.diagnostics@.len() > 0 <==> r matches Err(ExtractError::UnparsableSchema(_)),
        r matches Err(ExtractError::UnparsableSchema(d)) ==> strings_view(d@) == strings_view(
            ast.diagnostics@,
        ),
        r matches Err(ExtractError::SpanOutOfRange(s)) ==> exists|i: int|
            0 <= i < ast.models@.len() && spans_ok_upto(text@, *ast, i) && !span_ok(
                encode_utf8(text@),
                ast.models@[i].span,
            ) && s == ast.models@[i].span,
        r is Ok <==> (ast.diagnostics@.len() == 0 && spans_ok(text@, *ast)),
        r matches Ok(v) ==> models_match(text@, *ast, models_view(v@)),
{
    if ast.diagnostics.len() > 0 {
        let d = crate::ast::copy_strings(&ast.diagnostics);
        return Err(ExtractError::UnparsableSchema(d));
    }
    let mut out: Vec<PrismaVizModel> = Vec::new();
    let mut i: usize = 0;
    while i < ast.models.len()
        invariant
            i <= ast.models@.len(),
            ast.diagnostics@.len() == 0,
            out@.len() == i,
            spans_ok_upto(text@, *ast, i as int),
            forall|k: int| 0 <= k < i ==> model_matches(text@, ast.models@[k], #[trigger] out@[k]@),
        decreases ast.models@.len() - i,
    {
        match PrismaVizModel::from_ast(text, &ast.models[i]) {
            Some(m) => {
                out.push(m);
            },
            None => {
                return Err(ExtractError::SpanOutOfRange(ast.models[i].span));
            },
        }
        i = i + 1;
    }
    assert(models_view(out@).len() == out@.len());
    assert forall|k: int| 0 <= k < out@.len() implies model_matches(
        text@,
        ast.models@[k],
        #[trigger] models_view(out@)[k],
    ) by {
        assert(models_view(out@)[k] == out@[k]@);
    }
    Ok(out)
}

/// A schema text and the semantic models extracted from it.
pub struct SchemaVisualiser {
    pub schema: String,
    pub models: Vec<PrismaVizModel>,
}

impl SchemaVisualiser {
    pub fn new(contents: String) -> (r: SchemaVisualiser)
        ensures
            r.schema@ == contents@,
            r.models@.len() == 0,
    {
        SchemaVisualiser { schema: contents, models: Vec::new() }
    }

    /// Replaces the models by those extracted from the schema text with its
    /// syntax tree; on failure leaves them as they were.
    pub fn parse(&mut self, ast: &SchemaAst) -> (r: Result<(), ExtractError>)
        ensures
            final(self).schema == old(self).schema,
            ast.diagnostics@.len() > 0 <==> r matches Err(ExtractError::UnparsableSchema(_)),
            r is Ok <==> (ast.diagnostics@.len() == 0 && spans_ok(old(self).schema@, *ast)),
            r is Ok ==> models_match(old(self).schema@, *ast, models_view(final(self).models@)),
            r is Err ==> final(self).models == old(self).models,
    {
        match extract_models(self.schema.as_str(), ast) {
            Ok(v) => {
                self.models = v;
                Ok(())
            },
            Err(e) => Err(e),
        }
    }

    pub fn get_models(self) -> (r: Vec<PrismaVizModel>)
        ensures
            r == self.models,
    {
        self.models
    }
}

/// A field's row in a model's table: name, type with modifier, constraints
/// followed by the block labels, own fields, referenced fields, and whether
/// the field is indexed.
pub open spec fn table_row_spec(f: FieldView, block: Seq<BlockTagView>) -> Seq<Seq<char>> {
    seq![
        f.name,
        shown_type_name(f.data_type) + f.modifier,
        join(constraint_texts(f.constraints), "\n"@) + "\n"@ + join(labels_of(block, f.name), "\n"@),
        join(own_fields(f.relations), "\n"@),
        join(referenced_fields(f.relations), "\n"@),
        if f.tags.is_indexed {
            "true"@
        } else {
            "false"@
        },
    ]
}

impl PrismaVizModel {
    /// One table row per field, in order.
    pub fn table_rows(&self) -> (r: Vec<Vec<String>>)
        ensures
            r@.len() == self@.fields.len(),
            forall|i: int|
                0 <= i < r@.len() ==> (#[trigger] r@[i])@.map_values(|s: String| s@)
                    == table_row_spec(self@.fields[i], self@.block),
    {
        let mut r: Vec<Vec<String>> = Vec::new();
        let mut i: usize = 0;
        while i < self.fields.len()
            invariant
                i <= self.fields@.len(),
                r@.len() == i,
                forall|k: int|
                    0 <= k < i ==> (#[trigger] r@[k])@.map_values(|s: String| s@)
                        == table_row_spec(self@.fields[k], self@.block),
            decreases self.fields@.len() - i,
        {
            let f = &self.fields[i];
            assert(self@.fields[i as int] == f@);
            let mut constraints = f.constraints.to_string();
            constraints.append("\n");
            let labels = self.attributes.constraint_strings(f.name.as_str());
            constraints.append(labels.as_str());
            let own = f.relation_ships.fields();
            let referenced = f.relation_ships.references();
            let index = if f.is_indexed {
                String::from_str("true")
            } else {
                String::from_str("false")
            };
            let row = vec![
                f.name.clone(),
                f.field_type.resolve_with_modifier(),
                constraints,
                join_strings(&own, "\n"),
                join_strings(&referenced, "\n"),
                index,
            ];
            assert(row@.map_values(|s: String| s@) =~= table_row_spec(f@, self@.block));
            r.push(row);
            i = i + 1;
        }
        r
    }
}

} // verus!
