//! Field constraints: a field's attributes other than `relation`, each with
//! the arguments that have a literal or call value.
use vstd::prelude::*;
use crate::ast::{Argument, Attribute, Expression};
use crate::text::join;

verus! {

broadcast use vstd::seq_lib::group_seq_properties;

/// A constraint argument: a number, a string literal, or a call rendered
/// as its name followed by `()`.
#[derive(Clone, Debug, PartialEq, Eq, Hash)]
pub enum ArgumentType {
    Number(String),
    StringLiteral(String),
    FunctionCall(String),
}

pub enum ArgumentTypeView {
    Number(Seq<char>),
    StringLiteral(Seq<char>),
    FunctionCall(Seq<char>),
}

impl View for ArgumentType {
    type V = ArgumentTypeView;

    open spec fn view(&self) -> ArgumentTypeView {
        match self {
            ArgumentType::Number(v) => ArgumentTypeView::Number(v@),
            ArgumentType::StringLiteral(v) => ArgumentTypeView::StringLiteral(v@),
            ArgumentType::FunctionCall(v) => ArgumentTypeView::FunctionCall(v@),
        }
    }
}

impl ArgumentTypeView {
    /// The text that stands for the argument.
    pub open spec fn text(self) -> Seq<char> {
        match self {
            ArgumentTypeView::Number(v) => v,
            ArgumentTypeView::StringLiteral(v) => v,
            ArgumentTypeView::FunctionCall(v) => v,
        }
    }
}

/// A named constraint on a field, such as `id` or `default(autoincrement())`.
#[derive(Clone, Debug, PartialEq, Eq, Hash)]
pub struct Constraint {
    pub name: String,
    pub argument: Vec<ArgumentType>,
}

pub struct ConstraintView {
    pub name: Seq<char>,
    pub arguments: Seq<ArgumentTypeView>,
}

impl View for Constraint {
    type V = ConstraintView;

    open spec fn view(&self) -> ConstraintView {
        ConstraintView {
            name: self.name@,
            arguments: self.argument@.map_values(|a: ArgumentType| a@),
        }
    }
}

impl ConstraintView {
    /// The name, followed by the arguments' texts between parentheses and
    /// separated by commas when there are any.
    pub open spec fn text(self) -> Seq<char> {
        if self.arguments.len() == 0 {
            self.name
        } else {
            self.name + "("@ + join(self.arguments.map_values(|a: ArgumentTypeView| a.text()), ","@)
                + ")"@
        }
    }
}

/// The constraint argument that an expression gives: numbers, string
/// literals and calls; nothing for identifiers and arrays.
pub open spec fn constraint_argument(e: Expression) -> Seq<ArgumentTypeView> {
    match e {
        Expression::NumericValue(v) => seq![ArgumentTypeView::Number(v@)],
        Expression::StringValue(v) => seq![ArgumentTypeView::StringLiteral(v@)],
        Expression::Function(n) => seq![ArgumentTypeView::FunctionCall(n@ + "()"@)],
        _ => Seq::empty(),
    }
}

/// The constraint that one attribute gives.
pub open spec fn constraint_of(a: Attribute) -> ConstraintView {
    ConstraintView {
        name: a.name@,
        arguments: a.arguments@.flat_map(|g: Argument| constraint_argument(g.value)),
    }
}

/// The constraints of a field with these attributes, in order: one for each
/// attribute not named `relation`.
pub open spec fn field_constraints(attrs: Seq<Attribute>) -> Seq<ConstraintView> {
    attrs.flat_map(
        |a: Attribute|
            if a.name@ == "relation"@ {
                Seq::<ConstraintView>::empty()
            } else {
                seq![constraint_of(a)]
            },
    )
}

pub open spec fn constraints_view(v: Seq<Constraint>) -> Seq<ConstraintView> {
    v.map_values(|c: Constraint| c@)
}

pub open spec fn constraint_texts(v: Seq<ConstraintView>) -> Seq<Seq<char>> {
    v.map_values(|c: ConstraintView| c.text())
}

/// The constraint argument for one expression, if it gives one.
fn argument_of(e: &Expression) -> (r: Option<ArgumentType>)
    ensures
        match r {
            Some(a) => constraint_argument(*e) == seq![a@],
            None => constraint_argument(*e) == Seq::<ArgumentTypeView>::empty(),
        },
{
    match e {
        Expression::NumericValue(v) => Some(ArgumentType::Number(v.clone())),
        Expression::StringValue(v) => Some(ArgumentType::StringLiteral(v.clone())),
        Expression::Function(n) => {
            let mut call = n.clone();
            call.append("()");
            Some(ArgumentType::FunctionCall(call))
        },
        _ => None,
    }
}

/// The constraint that one attribute gives.
fn constraint_from(a: &Attribute) -> (r: Constraint)
    ensures
        r@ == constraint_of(*a),
{
    let mut args: Vec<ArgumentType> = Vec::new();
    let mut i: usize = 0;
    while i < a.arguments.len()
        invariant
            i <= a.arguments@.len(),
            args@.map_values(|x: ArgumentType| x@) == a.arguments@.take(i as int).flat_map(
                |g: Argument| constraint_argument(g.value),
            ),
        decreases a.arguments@.len() - i,
    {
        proof {
            a.arguments@.lemma_flat_map_take_append(
                |g: Argument| constraint_argument(g.value),
                i as int,
            );
        }
        match argument_of(&a.arguments[i].value) {
            Some(x) => {
                args.push(x);
                assert(args@.map_values(|x: ArgumentType| x@) =~= args@.drop_last().map_values(
                    |x: ArgumentType| x@,
                ).push(args@.last()@));
            },
            None => {},
        }
        i = i + 1;
    }
    assert(a.arguments@.take(a.arguments@.len() as int) =~= a.arguments@);
    let r = Constraint { name: a.name.clone(), argument: args };
    assert(r@.arguments =~= constraint_of(*a).arguments);
    r
}

impl Constraint {
    /// The constraint as text: `name` alone, or `name(a,b)`.
    pub fn to_string(&self) -> (r: String)
        ensures
            r@ == self@.text(),
    {
        let mut r = self.name.clone();
        if self.argument.len() == 0 {
            return r;
        }
        let ghost texts = self@.arguments.map_values(|a: ArgumentTypeView| a.text());
        r.append("(");
        let ghost head = r@;
        let mut i: usize = 0;
        while i < self.argument.len()
            invariant
                i <= self.argument@.len(),
                self.argument@.len() > 0,
                texts == self@.arguments.map_values(|a: ArgumentTypeView| a.text()),
                r@ == head + join(texts.take(i as int), ","@),
            decreases self.argument@.len() - i,
        {
            if i > 0 {
                r.append(",");
            }
            match &self.argument[i] {
                ArgumentType::Number(v) => r.append(v.as_str()),
                ArgumentType::StringLiteral(v) => r.append(v.as_str()),
                ArgumentType::FunctionCall(v) => r.append(v.as_str()),
            }
            assert(texts.take(i + 1).drop_last() =~= texts.take(i as int));
            i = i + 1;
        }
        assert(texts.take(self.argument@.len() as int) =~= texts);
        r.append(")");
        r
    }
}

/// The constraints of one field.
pub struct Contraints {
    pub constraints: Vec<Constraint>,
}

impl View for Contraints {
    type V = Seq<ConstraintView>;

    open spec fn view(&self) -> Seq<ConstraintView> {
        constraints_view(self.constraints@)
    }
}

impl Contraints {
    pub fn new() -> (r: Contraints)
        ensures
            r@ == Seq::<ConstraintView>::empty(),
    {
        Contraints { constraints: Vec::new() }
    }

    /// Appends one constraint for each attribute not named `relation`, in
    /// order.
    pub fn populate(&mut self, attributes: &Vec<Attribute>)
        ensures
            final(self)@ == old(self)@ + field_constraints(attributes@),
    {
        let ghost before = self@;
        let mut i: usize = 0;
        while i < attributes.len()
            invariant
                i <= attributes@.len(),
                self@ == before + field_constraints(attributes@.take(i as int)),
            decreases attributes@.len() - i,
        {
            proof {
                attributes@.lemma_flat_map_take_append(
                    |a: Attribute|
                        if a.name@ == "relation"@ {
                            Seq::<ConstraintView>::empty()
                        } else {
                            seq![constraint_of(a)]
                        },
                    i as int,
                );
            }
            let a = &attributes[i];
            let relation = String::from_str("relation");
            if a.name == relation {
                assert(self@ =~= before + field_constraints(attributes@.take(i + 1)));
            } else {
                let c = constraint_from(a);
                let ghost prev = self.constraints@;
                self.constraints.push(c);
                assert(self.constraints@.drop_last() =~= prev);
                assert(self@ =~= constraints_view(self.constraints@.drop_last()).push(c@));
                assert(a.name@ != "relation"@);
            }
            i = i + 1;
        }
        assert(attributes@.take(attributes@.len() as int) =~= attributes@);
    }

    /// Each constraint as text, one per line.
    pub fn to_string(&self) -> (r: String)
        ensures
            r@ == join(constraint_texts(self@), "\n"@),
    {
        let ghost texts = constraint_texts(self@);
        let mut r = String::new();
        let mut i: usize = 0;
        while i < self.constraints.len()
            invariant
                i <= self.constraints@.len(),
                texts == constraint_texts(self@),
                r@ == join(texts.take(i as int), "\n"@),
            decreases self.constraints@.len() - i,
        {
            if i > 0 {
                r.append("\n");
            }
            let t = self.constraints[i].to_string();
            r.append(t.as_str());
            assert(texts.take(i + 1).drop_last() =~= texts.take(i as int));
            i = i + 1;
        }
        assert(texts.take(self.constraints@.len() as int) =~= texts);
        r
    }

    /// Each constraint as text.
    pub fn as_vec(&self) -> (r: Vec<String>)
        ensures
            crate::ast::strings_view(r@) == constraint_texts(self@),
    {
        let mut r: Vec<String> = Vec::new();
        let mut i: usize = 0;
        while i < self.constraints.len()
            invariant
                i <= self.constraints@.len(),
                r@.len() == i,
                crate::ast::strings_view(r@) == constraint_texts(self@).take(i as int),
            decreases self.constraints@.len() - i,
        {
            let t = self.constraints[i].to_string();
            assert(constraint_texts(self@)[i as int] == self.constraints@[i as int]@.text());
            let ghost prev = r@;
            r.push(t);
            assert(r@.drop_last() =~= prev);
            assert(crate::ast::strings_view(r@) =~= constraint_texts(self@).take(i + 1));
            i = i + 1;
        }
        assert(constraint_texts(self@).take(self.constraints@.len() as int) =~= constraint_texts(self@));
        r
    }
}

} // verus!
