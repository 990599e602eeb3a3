//! Block-level attributes (`@@id`, `@@unique`, `@@index`): which field names
//! each of them lists.
use vstd::prelude::*;
use crate::ast::{array_constants, constants_in, Argument, Attribute};
use crate::constraints::Constraint;
use crate::text::{join, text_eq};

verus! {

broadcast use vstd::seq_lib::group_seq_properties;

#[derive(Clone, Debug)]
pub struct Index {
    pub name: String,
}

/// One field name listed by a block attribute, tagged with the attribute's
/// kind.
#[derive(Clone, Debug)]
pub enum ModelAttributTypes {
    Index(Index),
    Id(Constraint),
    Unique(Constraint),
}

pub enum BlockTagView {
    Index(Seq<char>),
    Id(Seq<char>),
    Unique(Seq<char>),
}

impl View for ModelAttributTypes {
    type V = BlockTagView;

    open spec fn view(&self) -> BlockTagView {
        match self {
            ModelAttributTypes::Index(i) => BlockTagView::Index(i.name@),
            ModelAttributTypes::Id(c) => BlockTagView::Id(c.name@),
            ModelAttributTypes::Unique(c) => BlockTagView::Unique(c.name@),
        }
    }
}

/// The classification of a model's block attributes, computed once per
/// model.
pub struct ModelAttributes {
    pub values: Vec<ModelAttributTypes>,
}

impl View for ModelAttributes {
    type V = Seq<BlockTagView>;

    open spec fn view(&self) -> Seq<BlockTagView> {
        self.values@.map_values(|t: ModelAttributTypes| t@)
    }
}

/// Whether a field belongs to an `@@index`, an `@@unique` and an `@@id`.
#[derive(Clone, Copy, Debug, PartialEq, Eq, Structural)]
pub struct BlockTags {
    pub is_indexed: bool,
    pub is_unique: bool,
    pub is_id: bool,
}

/// The kind of a block attribute, by its name.
#[derive(Clone, Copy, Debug, PartialEq, Eq, Structural)]
pub enum BlockKind {
    Index,
    Unique,
    Id,
    Other,
}

pub open spec fn block_kind(name: Seq<char>) -> BlockKind {
    if name == "index"@ {
        BlockKind::Index
    } else if name == "unique"@ {
        BlockKind::Unique
    } else if name == "id"@ {
        BlockKind::Id
    } else {
        BlockKind::Other
    }
}

/// The tag that a field name listed by a block attribute of this kind gets:
/// none for kinds other than `index`, `unique` and `id`.
pub open spec fn block_tag(kind: Seq<char>, v: Seq<char>) -> Seq<BlockTagView> {
    match block_kind(kind) {
        BlockKind::Index => seq![BlockTagView::Index(v)],
        BlockKind::Unique => seq![BlockTagView::Unique(v)],
        BlockKind::Id => seq![BlockTagView::Id(v)],
        BlockKind::Other => Seq::empty(),
    }
}

/// The tags that one argument gives: one per bare identifier of an unnamed
/// array argument; nothing from a named argument.
pub open spec fn block_argument_items(kind: Seq<char>, g: Argument) -> Seq<BlockTagView> {
    match g.name {
        Some(_) => Seq::empty(),
        None => array_constants(g.value).flat_map(|v: Seq<char>| block_tag(kind, v)),
    }
}

pub open spec fn block_attribute_items(a: Attribute) -> Seq<BlockTagView> {
    a.arguments@.flat_map(|g: Argument| block_argument_items(a.name@, g))
}

/// The tags that a model's block attributes give, in order.
pub open spec fn block_items(attrs: Seq<Attribute>) -> Seq<BlockTagView> {
    attrs.flat_map(|a: Attribute| block_attribute_items(a))
}

pub open spec fn has_index(tags: Seq<BlockTagView>, field: Seq<char>) -> bool {
    exists|k: int| 0 <= k < tags.len() && tags[k] == BlockTagView::Index(field)
}

pub open spec fn has_unique(tags: Seq<BlockTagView>, field: Seq<char>) -> bool {
    exists|k: int| 0 <= k < tags.len() && tags[k] == BlockTagView::Unique(field)
}

pub open spec fn has_id(tags: Seq<BlockTagView>, field: Seq<char>) -> bool {
    exists|k: int| 0 <= k < tags.len() && tags[k] == BlockTagView::Id(field)
}

/// The classification of a field name.
pub open spec fn tags_of(tags: Seq<BlockTagView>, field: Seq<char>) -> BlockTags {
    BlockTags {
        is_indexed: has_index(tags, field),
        is_unique: has_unique(tags, field),
        is_id: has_id(tags, field),
    }
}

/// The label that a tag gives a field: `id` or `unique` when it names the
/// field, nothing otherwise.
pub open spec fn tag_label(t: BlockTagView, field: Seq<char>) -> Seq<Seq<char>> {
    match t {
        BlockTagView::Id(n) => if n == field {
            seq!["id"@]
        } else {
            Seq::empty()
        },
        BlockTagView::Unique(n) => if n == field {
            seq!["unique"@]
        } else {
            Seq::empty()
        },
        BlockTagView::Index(_) => Seq::empty(),
    }
}

/// The labels of a field, in order.
pub open spec fn labels_of(tags: Seq<BlockTagView>, field: Seq<char>) -> Seq<Seq<char>> {
    tags.flat_map(|t: BlockTagView| tag_label(t, field))
}

/// The kind of a block attribute with this name.
fn kind_of_name(name: &String) -> (r: BlockKind)
    ensures
        r == block_kind(name@),
{
    if text_eq(name.as_str(), "index") {
        BlockKind::Index
    } else if text_eq(name.as_str(), "unique") {
        BlockKind::Unique
    } else if text_eq(name.as_str(), "id") {
        BlockKind::Id
    } else {
        BlockKind::Other
    }
}

impl ModelAttributes {
    pub fn new() -> (r: ModelAttributes)
        ensures
            r@ == Seq::<BlockTagView>::empty(),
    {
        ModelAttributes { values: Vec::new() }
    }

    /// Appends the tags given by a model's block attributes, in order.
    pub fn populate(&mut self, model_attributes: &Vec<Attribute>)
        ensures
            final(self)@ == old(self)@ + block_items(model_attributes@),
    {
        let ghost before = self@;
        let mut i: usize = 0;
        while i < model_attributes.len()
            invariant
                i <= model_attributes@.len(),
                self@ == before + block_items(model_attributes@.take(i as int)),
            decreases model_attributes@.len() - i,
        {
            proof {
                model_attributes@.lemma_flat_map_take_append(
                    |a: Attribute| block_attribute_items(a),
                    i as int,
                );
            }
            let a = &model_attributes[i];
            let kind = kind_of_name(&a.name);
            let ghost start = self@;
            let mut j: usize = 0;
            while j < a.arguments.len()
                invariant
                    j <= a.arguments@.len(),
                    kind == block_kind(a.name@),
                    self@ == start + a.arguments@.take(j as int).flat_map(
                        |g: Argument| block_argument_items(a.name@, g),
                    ),
                decreases a.arguments@.len() - j,
            {
                proof {
                    a.arguments@.lemma_flat_map_take_append(
                        |g: Argument| block_argument_items(a.name@, g),
                        j as int,
                    );
                }
                let g = &a.arguments[j];
                if g.name.is_none() {
                    let names = constants_in(&g.value);
                    let ghost mid = self@;
                    let mut k: usize = 0;
                    while k < names.len()
                        invariant
                            k <= names@.len(),
                            kind == block_kind(a.name@),
                            crate::ast::strings_view(names@) == array_constants(g.value),
                            self@ == mid + crate::ast::strings_view(names@).take(k as int).flat_map(
                                |v: Seq<char>| block_tag(a.name@, v),
                            ),
                        decreases names@.len() - k,
                    {
                        proof {
                            crate::ast::strings_view(names@).lemma_flat_map_take_append(
                                |v: Seq<char>| block_tag(a.name@, v),
                                k as int,
                            );
                        }
                        let v = names[k].clone();
                        assert(crate::ast::strings_view(names@)[k as int] == v@);
                        let ghost pv = self@;
                        match kind {
                            BlockKind::Index => {
                                self.values.push(ModelAttributTypes::Index(Index { name: v }));
                                assert(self@ =~= pv.push(BlockTagView::Index(v@)));
                            },
                            BlockKind::Unique => {
                                self.values.push(
                                    ModelAttributTypes::Unique(
                                        Constraint { name: v, argument: Vec::new() },
                                    ),
                                );
                                assert(self@ =~= pv.push(BlockTagView::Unique(v@)));
                            },
                            BlockKind::Id => {
                                self.values.push(
                                    ModelAttributTypes::Id(Constraint { name: v, argument: Vec::new() }),
                                );
                                assert(self@ =~= pv.push(BlockTagView::Id(v@)));
                            },
                            BlockKind::Other => {},
                        }
                        assert(self@ =~= pv + block_tag(a.name@, v@));
                        k = k + 1;
                    }
                    assert(crate::ast::strings_view(names@).take(names@.len() as int)
                        =~= crate::ast::strings_view(names@));
                }
                assert(self@ =~= start + a.arguments@.take(j + 1).flat_map(
                    |g: Argument| block_argument_items(a.name@, g),
                ));
                j = j + 1;
            }
            assert(a.arguments@.take(a.arguments@.len() as int) =~= a.arguments@);
            i = i + 1;
        }
        assert(model_attributes@.take(model_attributes@.len() as int) =~= model_attributes@);
    }

    /// Whether some block attribute of the given kind lists the field.
    fn has_tag(&self, field: &str, kind: BlockKind) -> (r: bool)
        requires
            kind != BlockKind::Other,
        ensures
            kind == BlockKind::Index ==> r == has_index(self@, field@),
            kind == BlockKind::Unique ==> r == has_unique(self@, field@),
            kind == BlockKind::Id ==> r == has_id(self@, field@),
    {
        let mut i: usize = 0;
        while i < self.values.len()
            invariant
                i <= self.values@.len(),
                kind != BlockKind::Other,
                forall|k: int|
                    0 <= k < i ==> !(kind == BlockKind::Index && self@[k] == BlockTagView::Index(
                        field@,
                    )) && !(kind == BlockKind::Unique && self@[k] == BlockTagView::Unique(field@))
                        && !(kind == BlockKind::Id && self@[k] == BlockTagView::Id(field@)),
            decreases self.values@.len() - i,
        {
            let hit = match &self.values[i] {
                ModelAttributTypes::Index(x) => kind == BlockKind::Index && text_eq(
                    x.name.as_str(),
                    field,
                ),
                ModelAttributTypes::Unique(c) => kind == BlockKind::Unique && text_eq(
                    c.name.as_str(),
                    field,
                ),
                ModelAttributTypes::Id(c) => kind == BlockKind::Id && text_eq(c.name.as_str(), field),
            };
            if hit {
                assert(self@[i as int] == self.values@[i as int]@);
                return true;
            }
            i = i + 1;
        }
        false
    }

    /// `"true"` when an `@@index` lists the field, else `"false"`.
    pub fn is_index(&self, field: &str) -> (r: &'static str)
        ensures
            r@ == (if has_index(self@, field@) {
                "true"@
            } else {
                "false"@
            }),
    {
        if self.has_tag(field, BlockKind::Index) {
            "true"
        } else {
            "false"
        }
    }

    /// The tags that the block attributes give a field; none for a field
    /// that no block attribute lists.
    pub fn classify(&self, field: &str) -> (r: BlockTags)
        ensures
            r == tags_of(self@, field@),
    {
        BlockTags {
            is_indexed: self.has_tag(field, BlockKind::Index),
            is_unique: self.has_tag(field, BlockKind::Unique),
            is_id: self.has_tag(field, BlockKind::Id),
        }
    }

    /// `id` and `unique` for each block attribute of those kinds that lists
    /// the field, one per line.
    pub fn constraint_strings(&self, field: &str) -> (r: String)
        ensures
            r@ == join(labels_of(self@, field@), "\n"@),
    {
        let ghost labels = labels_of(self@, field@);
        let mut r = String::new();
        let mut n: usize = 0;
        let mut i: usize = 0;
        while i < self.values.len()
            invariant
                i <= self.values@.len(),
                n <= i,
                labels == labels_of(self@, field@),
                labels_of(self@.take(i as int), field@).len() == n,
                r@ == join(labels_of(self@.take(i as int), field@), "\n"@),
            decreases self.values@.len() - i,
        {
            proof {
                self@.lemma_flat_map_take_append(|t: BlockTagView| tag_label(t, field@), i as int);
            }
            let ghost done = labels_of(self@.take(i as int), field@);
            let kind = match &self.values[i] {
                ModelAttributTypes::Id(c) => if text_eq(c.name.as_str(), field) {
                    BlockKind::Id
                } else {
                    BlockKind::Other
                },
                ModelAttributTypes::Unique(c) => if text_eq(c.name.as_str(), field) {
                    BlockKind::Unique
                } else {
                    BlockKind::Other
                },
                ModelAttributTypes::Index(_) => BlockKind::Other,
            };
            assert(self@[i as int] == self.values@[i as int]@);
            if kind != BlockKind::Other {
                if n > 0 {
                    r.append("\n");
                }
                if kind == BlockKind::Id {
                    r.append("id");
                    assert(tag_label(self@[i as int], field@) == seq!["id"@]);
                    assert(labels_of(self@.take(i + 1), field@) == done.push("id"@));
                    assert(done.push("id"@).drop_last() =~= done);
                } else {
                    r.append("unique");
                    assert(tag_label(self@[i as int], field@) == seq!["unique"@]);
                    assert(labels_of(self@.take(i + 1), field@) == done.push("unique"@));
                    assert(done.push("unique"@).drop_last() =~= done);
                }
                n = n + 1;
            } else {
                assert(tag_label(self@[i as int], field@) =~= Seq::<Seq<char>>::empty());
                assert(labels_of(self@.take(i + 1), field@) =~= done);
            }
            i = i + 1;
        }
        assert(self@.take(self.values@.len() as int) =~= self@);
        r
    }
}

} // verus!
