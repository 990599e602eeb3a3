//! Relationships: the own and referenced fields named by a field's
//! `@relation(fields: [...], references: [...])` attribute.
use vstd::prelude::*;
use crate::ast::{array_constants, constants_in, strings_view, Argument, Attribute};

verus! {

broadcast use vstd::seq_lib::group_seq_properties;

pub struct RelationalField {
    pub value: String,
}

pub struct RelationalReference {
    pub value: String,
}

/// One name of a relation: a field of this model, or a field of the
/// model it refers to.
pub enum Relations {
    Field(RelationalField),
    Reference(RelationalReference),
}

pub enum RelationsView {
    Field(Seq<char>),
    Reference(Seq<char>),
}

impl View for Relations {
    type V = RelationsView;

    open spec fn view(&self) -> RelationsView {
        match self {
            Relations::Field(f) => RelationsView::Field(f.value@),
            Relations::Reference(r) => RelationsView::Reference(r.value@),
        }
    }
}

/// The cardinality of a relationship. Extraction does not infer it, so it
/// stays `Unknown`.
#[derive(Clone, Copy, Debug, PartialEq, Eq, Structural)]
pub enum RelationshipType {
    OneToOne,
    OneToMany,
    ManyToMany,
    SelfRelation,
    Unknown,
}

pub struct RelationShips {
    pub relations: Vec<Relations>,
    pub kind: RelationshipType,
}

pub struct RelationShipsView {
    pub relations: Seq<RelationsView>,
    pub kind: RelationshipType,
}

impl View for RelationShips {
    type V = RelationShipsView;

    open spec fn view(&self) -> RelationShipsView {
        RelationShipsView {
            relations: self.relations@.map_values(|r: Relations| r@),
            kind: self.kind,
        }
    }
}

/// The names that one argument of a `relation` attribute contributes: the
/// identifiers of a `fields:` array as own fields, those of a `references:`
/// array as referenced fields; nothing from any other argument.
pub open spec fn relation_argument_items(g: Argument) -> Seq<RelationsView> {
    match g.name {
        Some(n) => if n@ == "fields"@ {
            array_constants(g.value).map_values(|v: Seq<char>| RelationsView::Field(v))
        } else if n@ == "references"@ {
            array_constants(g.value).map_values(|v: Seq<char>| RelationsView::Reference(v))
        } else {
            Seq::empty()
        },
        None => Seq::empty(),
    }
}

/// The names that one attribute contributes: those of its arguments if it
/// is named `relation`, else nothing.
pub open spec fn relation_attribute_items(a: Attribute) -> Seq<RelationsView> {
    if a.name@ == "relation"@ {
        a.arguments@.flat_map(|g: Argument| relation_argument_items(g))
    } else {
        Seq::empty()
    }
}

/// The relation names of a field with these attributes, in source order.
pub open spec fn relation_items(attrs: Seq<Attribute>) -> Seq<RelationsView> {
    attrs.flat_map(|a: Attribute| relation_attribute_items(a))
}

pub open spec fn own_field_of(r: RelationsView) -> Seq<Seq<char>> {
    match r {
        RelationsView::Field(v) => seq![v],
        _ => Seq::empty(),
    }
}

pub open spec fn referenced_field_of(r: RelationsView) -> Seq<Seq<char>> {
    match r {
        RelationsView::Reference(v) => seq![v],
        _ => Seq::empty(),
    }
}

/// The own fields among relation names, in order.
pub open spec fn own_fields(rs: Seq<RelationsView>) -> Seq<Seq<char>> {
    rs.flat_map(|r: RelationsView| own_field_of(r))
}

/// The referenced fields among relation names, in order.
pub open spec fn referenced_fields(rs: Seq<RelationsView>) -> Seq<Seq<char>> {
    rs.flat_map(|r: RelationsView| referenced_field_of(r))
}

/// The relation names that one argument contributes.
fn argument_items(g: &Argument) -> (r: Vec<Relations>)
    ensures
        r@.map_values(|x: Relations| x@) == relation_argument_items(*g),
{
    let mut out: Vec<Relations> = Vec::new();
    let is_fields: bool;
    let is_references: bool;
    match &g.name {
        Some(n) => {
            let f = String::from_str("fields");
            let rf = String::from_str("references");
            is_fields = *n == f;
            is_references = *n == rf;
        },
        None => {
            is_fields = false;
            is_references = false;
        },
    }
    if !is_fields && !is_references {
        assert(out@.map_values(|x: Relations| x@) =~= relation_argument_items(*g));
        return out;
    }
    let names = constants_in(&g.value);
    let ghost want = relation_argument_items(*g);
    assert(want.len() == names@.len());
    let mut i: usize = 0;
    while i < names.len()
        invariant
            i <= names@.len(),
            is_fields || is_references,
            want == relation_argument_items(*g),
            want.len() == names@.len(),
            is_fields ==> forall|k: int|
                0 <= k < names@.len() ==> want[k] == RelationsView::Field(names@[k]@),
            !is_fields ==> forall|k: int|
                0 <= k < names@.len() ==> want[k] == RelationsView::Reference(names@[k]@),
            out@.len() == i,
            forall|k: int| 0 <= k < i ==> out@[k]@ == want[k],
        decreases names@.len() - i,
    {
        let v = names[i].clone();
        if is_fields {
            out.push(Relations::Field(RelationalField { value: v }));
        } else {
            out.push(Relations::Reference(RelationalReference { value: v }));
        }
        i = i + 1;
    }
    assert(out@.map_values(|x: Relations| x@) =~= want);
    out
}

impl RelationShips {
    pub fn new() -> (r: RelationShips)
        ensures
            r@.relations == Seq::<RelationsView>::empty(),
            r@.kind == RelationshipType::Unknown,
    {
        RelationShips { relations: Vec::new(), kind: RelationshipType::Unknown }
    }

    /// Appends the names given by the `relation` attributes among these, in
    /// source order.
    pub fn populate(&mut self, attributes: &Vec<Attribute>)
        ensures
            final(self)@.relations == old(self)@.relations + relation_items(attributes@),
            final(self)@.kind == old(self)@.kind,
    {
        let ghost before = self@.relations;
        let mut i: usize = 0;
        while i < attributes.len()
            invariant
                i <= attributes@.len(),
                self@.relations == before + relation_items(attributes@.take(i as int)),
                self@.kind == old(self)@.kind,
            decreases attributes@.len() - i,
        {
            proof {
                attributes@.lemma_flat_map_take_append(
                    |a: Attribute| relation_attribute_items(a),
                    i as int,
                );
            }
            let a = &attributes[i];
            let relation = String::from_str("relation");
            if a.name == relation {
                let mut j: usize = 0;
                let ghost start = self@.relations;
                while j < a.arguments.len()
                    invariant
                        j <= a.arguments@.len(),
                        a.name@ == "relation"@,
                        self@.relations == start + a.arguments@.take(j as int).flat_map(
                            |g: Argument| relation_argument_items(g),
                        ),
                        self@.kind == old(self)@.kind,
                    decreases a.arguments@.len() - j,
                {
                    proof {
                        a.arguments@.lemma_flat_map_take_append(
                            |g: Argument| relation_argument_items(g),
                            j as int,
                        );
                    }
                    let mut items = argument_items(&a.arguments[j]);
                    let ghost prev = self.relations@;
                    let ghost added = items@;
                    self.relations.append(&mut items);
                    assert(self.relations@ =~= prev + added);
                    assert(self@.relations =~= prev.map_values(|r: Relations| r@) + added.map_values(
                        |r: Relations| r@,
                    ));
                    j = j + 1;
                }
                assert(a.arguments@.take(a.arguments@.len() as int) =~= a.arguments@);
            } else {
                assert(self@.relations =~= before + relation_items(attributes@.take(i + 1)));
            }
            i = i + 1;
        }
        assert(attributes@.take(attributes@.len() as int) =~= attributes@);
    }

    /// The own fields, in order.
    pub fn fields(&self) -> (r: Vec<String>)
        ensures
            strings_view(r@) == own_fields(self@.relations),
    {
        let mut r: Vec<String> = Vec::new();
        let mut i: usize = 0;
        while i < self.relations.len()
            invariant
                i <= self.relations@.len(),
                strings_view(r@) == own_fields(self@.relations.take(i as int)),
            decreases self.relations@.len() - i,
        {
            proof {
                self@.relations.lemma_flat_map_take_append(
                    |x: RelationsView| own_field_of(x),
                    i as int,
                );
            }
            match &self.relations[i] {
                Relations::Field(f) => {
                    let ghost prev = r@;
                    r.push(f.value.clone());
                    assert(strings_view(r@) =~= strings_view(prev).push(f.value@));
                },
                _ => {},
            }
            i = i + 1;
        }
        assert(self@.relations.take(self.relations@.len() as int) =~= self@.relations);
        r
    }

    /// The referenced fields, in order.
    pub fn references(&self) -> (r: Vec<String>)
        ensures
            strings_view(r@) == referenced_fields(self@.relations),
    {
        let mut r: Vec<String> = Vec::new();
        let mut i: usize = 0;
        while i < self.relations.len()
            invariant
                i <= self.relations@.len(),
                strings_view(r@) == referenced_fields(self@.relations.take(i as int)),
            decreases self.relations@.len() - i,
        {
            proof {
                self@.relations.lemma_flat_map_take_append(
                    |x: RelationsView| referenced_field_of(x),
                    i as int,
                );
            }
            match &self.relations[i] {
                Relations::Reference(f) => {
                    let ghost prev = r@;
                    r.push(f.value.clone());
                    assert(strings_view(r@) =~= strings_view(prev).push(f.value@));
                },
                _ => {},
            }
            i = i + 1;
        }
        assert(self@.relations.take(self.relations@.len() as int) =~= self@.relations);
        r
    }
}

} // verus!
