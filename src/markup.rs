//! The markup generator: one HTML fragment per model declaration, tagged
//! with the declaration's span, with every interpolated text escaped.
use vstd::prelude::*;
use crate::ast::{
    array_constants, constants_in, strings_view, Argument, AstField, Attribute, Expression, FieldType,
};
use crate::field_type::{modifier_of, shown_type_name, PrismaVizFieldType};
use crate::model::{field_arity, field_data_type, shown_arity};
use crate::text::{escape, escape_html, join, join_strings, text_eq};

verus! {

broadcast use vstd::seq_lib::group_seq_properties;

/// The kind of an argument's value.
#[derive(Clone, Copy, Debug, PartialEq, Eq, Structural)]
pub enum ArgumentValueKind {
    Array,
    Function,
    Number,
    StringLiteral,
    ConstantValue,
}

pub open spec fn kind_of(e: Expression) -> ArgumentValueKind {
    match e {
        Expression::NumericValue(_) => ArgumentValueKind::Number,
        Expression::StringValue(_) => ArgumentValueKind::StringLiteral,
        Expression::ConstantValue(_) => ArgumentValueKind::ConstantValue,
        Expression::Function(_) => ArgumentValueKind::Function,
        Expression::Array(_) => ArgumentValueKind::Array,
    }
}

/// An argument with a value: its name (empty when unnamed), the value's
/// text and kind, and the bare identifiers of an array value.
#[derive(Clone, Debug)]
pub struct CombinedArgument {
    pub name: String,
    pub value: String,
    pub kind: ArgumentValueKind,
    pub items: Vec<String>,
}

/// An argument written without a value.
#[derive(Clone, Debug)]
pub struct NonCombinedArgument {
    pub name: String,
}

#[derive(Clone, Debug)]
pub enum PslArgument {
    Combined(CombinedArgument),
    NonCombined(NonCombinedArgument),
}

pub enum PslArgumentView {
    Combined {
        name: Seq<char>,
        value: Seq<char>,
        kind: ArgumentValueKind,
        items: Seq<Seq<char>>,
    },
    NonCombined { name: Seq<char> },
}

impl View for PslArgument {
    type V = PslArgumentView;

    open spec fn view(&self) -> PslArgumentView {
        match self {
            PslArgument::Combined(c) => PslArgumentView::Combined {
                name: c.name@,
                value: c.value@,
                kind: c.kind,
                items: strings_view(c.items@),
            },
            PslArgument::NonCombined(n) => PslArgumentView::NonCombined { name: n.name@ },
        }
    }
}

pub open spec fn list_item_html(x: Seq<char>) -> Seq<char> {
    "<span class=\"argument-list-item\">"@ + escape(x) + "</span>"@
}

/// A bracketed list with each entry tagged on its own.
pub open spec fn list_html(items: Seq<Seq<char>>) -> Seq<char> {
    "<span class=\"argument-list-container\"><span class=\"open square-bracket\">[</span>"@ + join(
        items.map_values(|x: Seq<char>| list_item_html(x)),
        "<span class=\"separator\">,</span>"@,
    ) + "<span class=\"close square-bracket\">]</span></span>"@
}

pub open spec fn argument_name_html(name: Seq<char>, relational: bool) -> Seq<char> {
    if name.len() == 0 {
        Seq::empty()
    } else if relational {
        "<span class=\"argument-name argument-name-is-relational\">"@ + escape(name) + ":</span>"@
    } else {
        "<span class=\"argument-name\">"@ + escape(name) + ":</span>"@
    }
}

/// An argument's value: in a relation attribute an array value is shown as
/// a list of its identifiers, any other value as its text.
pub open spec fn argument_value_html(
    value: Seq<char>,
    kind: ArgumentValueKind,
    items: Seq<Seq<char>>,
    relational: bool,
) -> Seq<char> {
    if relational && kind == ArgumentValueKind::Array {
        list_html(items)
    } else if relational {
        "<span class=\"argument-type argument-type-is-relational\">"@ + escape(value) + "</span>"@
    } else {
        "<span class=\"argument-type\">"@ + escape(value) + "</span>"@
    }
}

pub open spec fn combined_html(
    name: Seq<char>,
    value: Seq<char>,
    kind: ArgumentValueKind,
    items: Seq<Seq<char>>,
    relational: bool,
) -> Seq<char> {
    "<span class=\"arguments-container\">"@ + argument_name_html(name, relational)
        + argument_value_html(value, kind, items, relational) + "</span>"@
}

pub open spec fn non_combined_html(name: Seq<char>) -> Seq<char> {
    "<span class=\"argument-name\">"@ + escape(name) + "</span>"@
}

pub open spec fn argument_html(a: PslArgumentView, relational: bool) -> Seq<char> {
    match a {
        PslArgumentView::Combined { name, value, kind, items } => combined_html(
            name,
            value,
            kind,
            items,
            relational,
        ),
        PslArgumentView::NonCombined { name } => non_combined_html(name),
    }
}

/// The markup of the entries of a list.
fn list_items_markup(items: &Vec<String>) -> (r: Vec<String>)
    ensures
        r@.map_values(|s: String| s@) == strings_view(items@).map_values(
            |x: Seq<char>| list_item_html(x),
        ),
{
    let ghost want = strings_view(items@).map_values(|x: Seq<char>| list_item_html(x));
    let mut r: Vec<String> = Vec::new();
    let mut i: usize = 0;
    while i < items.len()
        invariant
            i <= items@.len(),
            want == strings_view(items@).map_values(|x: Seq<char>| list_item_html(x)),
            r@.len() == i,
            forall|k: int| 0 <= k < i ==> #[trigger] r@[k]@ == want[k],
        decreases items@.len() - i,
    {
        let mut s = String::new();
        s.append("<span class=\"argument-list-item\">");
        let e = escape_html(items[i].as_str());
        s.append(e.as_str());
        s.append("</span>");
        r.push(s);
        i = i + 1;
    }
    assert(r@.map_values(|s: String| s@) =~= want);
    r
}

impl CombinedArgument {
    /// The argument's markup; relational when it belongs to a relation
    /// attribute.
    pub fn markup(&self, is_part_of_relational: bool) -> (r: String)
        ensures
            r@ == combined_html(
                self.name@,
                self.value@,
                self.kind,
                strings_view(self.items@),
                is_part_of_relational,
            ),
    {
        let mut r = String::new();
        r.append("<span class=\"arguments-container\">");
        let ghost head = r@;
        if self.name.as_str().is_empty() {
        } else {
            if is_part_of_relational {
                r.append("<span class=\"argument-name argument-name-is-relational\">");
            } else {
                r.append("<span class=\"argument-name\">");
            }
            let e = escape_html(self.name.as_str());
            r.append(e.as_str());
            r.append(":</span>");
        }
        assert(r@ =~= head + argument_name_html(self.name@, is_part_of_relational));
        let ghost mid = r@;
        if is_part_of_relational && self.kind == ArgumentValueKind::Array {
            r.append(
                "<span class=\"argument-list-container\"><span class=\"open square-bracket\">[</span>",
            );
            let parts = list_items_markup(&self.items);
            let joined = join_strings(&parts, "<span class=\"separator\">,</span>");
            r.append(joined.as_str());
            r.append("<span class=\"close square-bracket\">]</span></span>");
        } else {
            if is_part_of_relational {
                r.append("<span class=\"argument-type argument-type-is-relational\">");
            } else {
                r.append("<span class=\"argument-type\">");
            }
            let e = escape_html(self.value.as_str());
            r.append(e.as_str());
            r.append("</span>");
        }
        assert(r@ =~= mid + argument_value_html(
            self.value@,
            self.kind,
            strings_view(self.items@),
            is_part_of_relational,
        ));
        r.append("</span>");
        r
    }
}

impl NonCombinedArgument {
    pub fn markup(&self) -> (r: String)
        ensures
            r@ == non_combined_html(self.name@),
    {
        let mut r = String::new();
        r.append("<span class=\"argument-name\">");
        let e = escape_html(self.name.as_str());
        r.append(e.as_str());
        r.append("</span>");
        r
    }
}

impl PslArgument {
    pub fn markup(&self, is_part_of_relational: bool) -> (r: String)
        ensures
            r@ == argument_html(self@, is_part_of_relational),
    {
        match self {
            PslArgument::Combined(c) => c.markup(is_part_of_relational),
            PslArgument::NonCombined(n) => n.markup(),
        }
    }
}

/// An attribute prepared for display: its name as shown after `@`, its
/// arguments, and whether it is a relation attribute.
pub struct PslAttribute {
    pub name: String,
    pub arguments: Vec<PslArgument>,
    pub is_relation: bool,
}

pub struct PslAttributeView {
    pub name: Seq<char>,
    pub arguments: Seq<PslArgumentView>,
    pub is_relation: bool,
}

impl View for PslAttribute {
    type V = PslAttributeView;

    open spec fn view(&self) -> PslAttributeView {
        PslAttributeView {
            name: self.name@,
            arguments: self.arguments@.map_values(|a: PslArgument| a@),
            is_relation: self.is_relation,
        }
    }
}

/// The display form of one argument that has a value.
pub open spec fn argument_spec(g: Argument) -> PslArgumentView {
    PslArgumentView::Combined {
        name: match g.name {
            Some(n) => n@,
            None => Seq::empty(),
        },
        value: g.value_text@,
        kind: kind_of(g.value),
        items: array_constants(g.value),
    }
}

pub open spec fn non_combined_spec(n: Seq<char>) -> PslArgumentView {
    PslArgumentView::NonCombined { name: n }
}

/// The display arguments of an attribute: its arguments without a value
/// when there are any, else its arguments with a value.
pub open spec fn arguments_spec(a: Attribute) -> Seq<PslArgumentView> {
    if a.empty_arguments@.len() > 0 {
        strings_view(a.empty_arguments@).map_values(|n: Seq<char>| non_combined_spec(n))
    } else {
        a.arguments@.map_values(|g: Argument| argument_spec(g))
    }
}

pub open spec fn attribute_name_html(name: Seq<char>) -> Seq<char> {
    "<span class=\"attribute-name\">@"@ + escape(name) + "</span>"@
}

pub open spec fn open_html(n: nat) -> Seq<char> {
    if n > 0 {
        "<span class=\"open-argument\">(</span>"@
    } else {
        Seq::empty()
    }
}

pub open spec fn close_html(n: nat) -> Seq<char> {
    if n > 0 {
        "<span class=\"close-argument\">)</span>"@
    } else {
        Seq::empty()
    }
}

pub open spec fn arguments_html(a: PslAttributeView) -> Seq<Seq<char>> {
    a.arguments.map_values(|g: PslArgumentView| argument_html(g, a.is_relation))
}

/// An attribute's badge: its name, then its arguments in parentheses when
/// it has any.
pub open spec fn attribute_html(a: PslAttributeView) -> Seq<char> {
    "<span class=\"attributes\">"@ + attribute_name_html(a.name) + open_html(a.arguments.len())
        + join(arguments_html(a), "<span>,</span>"@) + close_html(a.arguments.len())
        + "</span>"@
}

impl PslAttribute {
    pub fn new(name: String, is_relation: bool) -> (r: PslAttribute)
        ensures
            r@.name == name@,
            r@.arguments == Seq::<PslArgumentView>::empty(),
            r@.is_relation == is_relation,
    {
        let r = PslAttribute { name, arguments: Vec::new(), is_relation };
        assert(r@.arguments =~= Seq::<PslArgumentView>::empty());
        r
    }

    /// Appends the attribute's display arguments.
    pub fn resolve_arguments(&mut self, args: &Attribute)
        ensures
            final(self)@.name == old(self)@.name,
            final(self)@.is_relation == old(self)@.is_relation,
            final(self)@.arguments == old(self)@.arguments + arguments_spec(*args),
    {
        let ghost before = self@.arguments;
        let ghost want = arguments_spec(*args);
        if args.empty_arguments.len() > 0 {
            let mut i: usize = 0;
            while i < args.empty_arguments.len()
                invariant
                    i <= args.empty_arguments@.len(),
                    args.empty_arguments@.len() > 0,
                    want == arguments_spec(*args),
                    self@.name == old(self)@.name,
                    self@.is_relation == old(self)@.is_relation,
                    self@.arguments =~= before + want.take(i as int),
                decreases args.empty_arguments@.len() - i,
            {
                let n = args.empty_arguments[i].clone();
                let ghost prev = self@.arguments;
                self.arguments.push(PslArgument::NonCombined(NonCombinedArgument { name: n }));
                assert(self@.arguments =~= prev.push(want[i as int]));
                i = i + 1;
            }
            assert(want.take(args.empty_arguments@.len() as int) =~= want);
        } else {
            let mut i: usize = 0;
            while i < args.arguments.len()
                invariant
                    i <= args.arguments@.len(),
                    args.empty_arguments@.len() == 0,
                    want == arguments_spec(*args),
                    self@.name == old(self)@.name,
                    self@.is_relation == old(self)@.is_relation,
                    self@.arguments =~= before + want.take(i as int),
                decreases args.arguments@.len() - i,
            {
                let g = &args.arguments[i];
                let name = match &g.name {
                    Some(n) => n.clone(),
                    None => String::new(),
                };
                let kind = match &g.value {
                    Expression::NumericValue(_) => ArgumentValueKind::Number,
                    Expression::StringValue(_) => ArgumentValueKind::StringLiteral,
                    Expression::ConstantValue(_) => ArgumentValueKind::ConstantValue,
                    Expression::Function(_) => ArgumentValueKind::Function,
                    Expression::Array(_) => ArgumentValueKind::Array,
                };
                let items = constants_in(&g.value);
                let c = CombinedArgument { name, value: g.value_text.clone(), kind, items };
                let ghost prev = self@.arguments;
                self.arguments.push(PslArgument::Combined(c));
                assert(self@.arguments =~= prev.push(want[i as int]));
                i = i + 1;
            }
            assert(want.take(args.arguments@.len() as int) =~= want);
        }
    }

    pub fn attribute_name_markup(&self) -> (r: String)
        ensures
            r@ == attribute_name_html(self.name@),
    {
        let mut r = String::new();
        r.append("<span class=\"attribute-name\">@");
        let e = escape_html(self.name.as_str());
        r.append(e.as_str());
        r.append("</span>");
        r
    }

    /// The markup of each argument.
    pub fn arguments_markup(&self) -> (r: Vec<String>)
        ensures
            r@.map_values(|s: String| s@) == arguments_html(self@),
    {
        let ghost want = arguments_html(self@);
        let mut r: Vec<String> = Vec::new();
        let mut i: usize = 0;
        while i < self.arguments.len()
            invariant
                i <= self.arguments@.len(),
                want == arguments_html(self@),
                r@.len() == i,
                forall|k: int| 0 <= k < i ==> #[trigger] r@[k]@ == want[k],
            decreases self.arguments@.len() - i,
        {
            let m = self.arguments[i].markup(self.is_relation);
            r.push(m);
            i = i + 1;
        }
        assert(r@.map_values(|s: String| s@) =~= want);
        r
    }

    pub fn arugments_open(&self) -> (r: String)
        ensures
            r@ == open_html(self@.arguments.len()),
    {
        if self.arguments.len() > 0 {
            String::from_str("<span class=\"open-argument\">(</span>")
        } else {
            String::new()
        }
    }

    pub fn arugments_close(&self) -> (r: String)
        ensures
            r@ == close_html(self@.arguments.len()),
    {
        if self.arguments.len() > 0 {
            String::from_str("<span class=\"close-argument\">)</span>")
        } else {
            String::new()
        }
    }

    /// The attribute's whole badge.
    pub fn attribute_markup(&self) -> (r: String)
        ensures
            r@ == attribute_html(self@),
    {
        let mut r = String::new();
        r.append("<span class=\"attributes\">");
        let n = self.attribute_name_markup();
        r.append(n.as_str());
        let o = self.arugments_open();
        r.append(o.as_str());
        let parts = self.arguments_markup();
        let joined = join_strings(&parts, "<span>,</span>");
        r.append(joined.as_str());
        let c = self.arugments_close();
        r.append(c.as_str());
        r.append("</span>");
        r
    }
}

/// The display form of a field attribute: relation attributes show their
/// array arguments as lists.
pub open spec fn field_attribute_spec(a: Attribute) -> PslAttributeView {
    PslAttributeView {
        name: a.name@,
        arguments: arguments_spec(a),
        is_relation: a.name@ == "relation"@,
    }
}

/// A field prepared for display.
pub struct PslField {
    pub name: String,
    pub field_type: String,
    pub modifier: String,
    pub attributes: Vec<PslAttribute>,
    pub is_relational: bool,
}

pub struct PslFieldView {
    pub name: Seq<char>,
    pub field_type: Seq<char>,
    pub modifier: Seq<char>,
    pub attributes: Seq<PslAttributeView>,
    pub is_relational: bool,
}

impl View for PslField {
    type V = PslFieldView;

    open spec fn view(&self) -> PslFieldView {
        PslFieldView {
            name: self.name@,
            field_type: self.field_type@,
            modifier: self.modifier@,
            attributes: self.attributes@.map_values(|a: PslAttribute| a@),
            is_relational: self.is_relational,
        }
    }
}

/// The display form of a field declaration: its resolved type's name and
/// modifier, and its attributes.
pub open spec fn psl_field_spec(bytes: Seq<u8>, f: AstField) -> PslFieldView {
    PslFieldView {
        name: f.name@,
        field_type: shown_type_name(field_data_type(f)),
        modifier: modifier_of(shown_arity(bytes, f)),
        attributes: f.attributes@.map_values(|a: Attribute| field_attribute_spec(a)),
        is_relational: field_data_type(f) is Relational,
    }
}

pub open spec fn field_name_html(name: Seq<char>) -> Seq<char> {
    "<span class=\"field-name\">"@ + escape(name) + "</span>"@
}

pub open spec fn field_type_html(f: PslFieldView) -> Seq<char> {
    (if f.is_relational {
        "<span class=\"field-type relational-field-type\">"@
    } else {
        "<span class=\"field-type\">"@
    }) + escape(f.field_type) + "<span class=\"field-modifier\">"@ + escape(f.modifier)
        + "</span></span>"@
}

pub open spec fn attributes_html(f: PslFieldView) -> Seq<Seq<char>> {
    f.attributes.map_values(|a: PslAttributeView| attribute_html(a))
}

/// A field's block: its name, its type with modifier, and one badge per
/// attribute.
pub open spec fn field_html(f: PslFieldView) -> Seq<char> {
    "<div class=\"field-wrapper\">"@ + field_name_html(f.name) + field_type_html(f) + join(
        attributes_html(f),
        Seq::empty(),
    ) + "</div>"@
}

impl PslField {
    pub fn new(name: String) -> (r: PslField)
        ensures
            r@.name == name@,
            r@.field_type == Seq::<char>::empty(),
            r@.modifier == Seq::<char>::empty(),
            r@.attributes == Seq::<PslAttributeView>::empty(),
            !r@.is_relational,
    {
        let r = PslField {
            name,
            field_type: String::new(),
            modifier: String::new(),
            attributes: Vec::new(),
            is_relational: false,
        };
        assert(r@.attributes =~= Seq::<PslAttributeView>::empty());
        r
    }

    /// Fills in the display form of a field declaration, given the bytes of
    /// the schema text.
    pub fn resolve_field(&mut self, bytes: &[u8], field: &AstField)
        ensures
            final(self)@ == psl_field_spec(bytes@, *field),
    {
        let mut ft = PrismaVizFieldType::new();
        match &field.field_type {
            FieldType::Supported(name, _) => {
                ft.resolve_data_type(name.clone(), field_arity(bytes, field));
            },
            FieldType::Unsupported(t) => {
                ft.data_type = crate::field_type::DataTypes::Unsupported(t.clone());
                ft.modifier = crate::field_type::modifier_text(field.arity);
            },
        }
        self.name = field.name.clone();
        self.field_type = ft.get_data_type();
        self.modifier = ft.modifier;
        self.is_relational = match &ft.data_type {
            crate::field_type::DataTypes::Relational(_) => true,
            _ => false,
        };
        let mut attrs: Vec<PslAttribute> = Vec::new();
        let ghost want = field.attributes@.map_values(|a: Attribute| field_attribute_spec(a));
        let mut i: usize = 0;
        while i < field.attributes.len()
            invariant
                i <= field.attributes@.len(),
                want == field.attributes@.map_values(|a: Attribute| field_attribute_spec(a)),
                attrs@.len() == i,
                forall|k: int| 0 <= k < i ==> #[trigger] attrs@[k]@ == want[k],
            decreases field.attributes@.len() - i,
        {
            let a = &field.attributes[i];
            let is_relation = text_eq(a.name.as_str(), "relation");
            let mut attribute = PslAttribute::new(a.name.clone(), is_relation);
            attribute.resolve_arguments(a);
            assert(attribute@.arguments =~= arguments_spec(*a));
            attrs.push(attribute);
            i = i + 1;
        }
        self.attributes = attrs;
        assert(self@.attributes =~= want);
    }

    pub fn resolve_field_name_markup(&self) -> (r: String)
        ensures
            r@ == field_name_html(self.name@),
    {
        let mut r = String::new();
        r.append("<span class=\"field-name\">");
        let e = escape_html(self.name.as_str());
        r.append(e.as_str());
        r.append("</span>");
        r
    }

    pub fn resolve_field_type_markup(&self) -> (r: String)
        ensures
            r@ == field_type_html(self@),
    {
        let mut r = String::new();
        if self.is_relational {
            r.append("<span class=\"field-type relational-field-type\">");
        } else {
            r.append("<span class=\"field-type\">");
        }
        let t = escape_html(self.field_type.as_str());
        r.append(t.as_str());
        r.append("<span class=\"field-modifier\">");
        let m = escape_html(self.modifier.as_str());
        r.append(m.as_str());
        r.append("</span></span>");
        r
    }

    /// One badge per attribute.
    pub fn resolve_attributes_markup(&self) -> (r: Vec<String>)
        ensures
            r@.map_values(|s: String| s@) == attributes_html(self@),
    {
        let ghost want = attributes_html(self@);
        let mut r: Vec<String> = Vec::new();
        let mut i: usize = 0;
        while i < self.attributes.len()
            invariant
                i <= self.attributes@.len(),
                want == attributes_html(self@),
                r@.len() == i,
                forall|k: int| 0 <= k < i ==> #[trigger] r@[k]@ == want[k],
            decreases self.attributes@.len() - i,
        {
            let m = self.attributes[i].attribute_markup();
            r.push(m);
            i = i + 1;
        }
        assert(r@.map_values(|s: String| s@) =~= want);
        r
    }

    /// The field's whole block.
    pub fn field_markup(&self) -> (r: String)
        ensures
            r@ == field_html(self@),
    {
        let mut r = String::new();
        r.append("<div class=\"field-wrapper\">");
        let n = self.resolve_field_name_markup();
        r.append(n.as_str());
        let t = self.resolve_field_type_markup();
        r.append(t.as_str());
        let parts = self.resolve_attributes_markup();
        let joined = join_strings(&parts, "");
        proof {
            reveal_strlit("");
        }
        r.append(joined.as_str());
        r.append("</div>");
        r
    }
}

} // verus!
