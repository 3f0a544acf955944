//! The description of a type definition as the derive macro builds it, with
//! names that it owns.
//!
//! The view of each node is the view of the node of [`crate::ir`] that it
//! describes: the macro writes out a container with that view.
use vstd::prelude::*;
use crate::ir;
use crate::text::str_eq;

verus! {

/// A container of some type definition.
#[derive(Debug, Clone, PartialEq)]
pub struct Container {
    /// The `serde` attributes that were present on the type, if any.
    pub serde: Option<SerdeContainerAttributes>,
    /// The item (type definition).
    pub item: Item,
}

/// The `serde` attributes of a container that the macro understands.
#[derive(Debug, Clone, PartialEq)]
pub struct SerdeContainerAttributes {
    /// The rule by which the fields or variants are renamed.
    pub rename_all: Option<RenameRule>,
    /// The rule by which the type itself is renamed.
    pub rename: Option<RenameRule>,
    /// The name of the field that holds the name of a variant.
    pub tag: Option<String>,
    /// The name of the field that holds the content of a variant.
    pub content: Option<String>,
}

/// A rename rule.
#[derive(Debug, Copy, Clone, PartialEq)]
pub enum RenameRule {
    /// `"lowercase"`
    Lower,
    /// `"UPPERCASE"`
    Upper,
    /// `"PascalCase"`
    Pascal,
    /// `"camelCase"`
    Camel,
    /// `"snake_case"`
    Snake,
    /// `"SCREAMING_SNAKE_CASE"`
    ScreamingSnake,
    /// `"kebab-case"`
    Kebab,
    /// `"SCREAMING-KEBAB-CASE"`
    ScreamingKebab,
}

/// Represents an item.
#[derive(Debug, Clone, PartialEq)]
pub enum Item {
    /// A struct.
    Struct(Struct),
    /// An enum.
    Enum(Enum),
}

/// A visibility modifier for an item.
#[derive(Debug, Clone, PartialEq)]
pub enum Visibility {
    /// No visibility modifier is present.
    Inherited,
    /// The `pub` modifier.
    Pub,
}

/// Represents a `struct` definition.
#[derive(Debug, Clone, PartialEq)]
pub struct Struct {
    /// The visibility level of the struct.
    pub visibility: Visibility,
    /// The name of the struct.
    pub name: String,
    /// The generic parameters of the struct.
    pub parameters: Vec<GenericParameter>,
    /// The content of the struct.
    pub content: StructVariant,
}

/// A generic parameter.
#[derive(Debug, Clone, PartialEq)]
pub enum GenericParameter {
    /// A lifetime parameter.
    Lifetime(String),
    /// A plain type parameter.
    Type(String),
}

/// The fields of a struct: either all named, or a single unnamed one.
#[derive(Debug, Clone, PartialEq)]
pub enum StructVariant {
    /// A struct that is composed of named fields.
    NamedFields(Vec<NamedField>),
    /// A struct that is composed of a single unnamed field.
    UnnamedField(UnnamedField),
}

/// Represents a named `struct` field.
#[derive(Debug, Clone, PartialEq)]
pub struct NamedField {
    /// The name of the field.
    pub name: String,
    /// The type of the field.
    pub ty: Type,
}

/// Represents an unnamed `struct` field.
#[derive(Debug, Clone, PartialEq)]
pub struct UnnamedField {
    /// The type of the field.
    pub ty: Type,
}

/// Represents an `enum` definition.
#[derive(Debug, Clone, PartialEq)]
pub struct Enum {
    /// The visibility level of the enum.
    pub visibility: Visibility,
    /// The name of the enum.
    pub name: String,
    /// The generic parameters of the enum.
    pub parameters: Vec<GenericParameter>,
    /// The variants of the enum.
    pub variants: Vec<Variant>,
}

/// A variant of an enum.
#[derive(Debug, Clone, PartialEq)]
pub struct Variant {
    /// The `serde` attributes that were present on the variant, if any.
    pub serde: Option<SerdeVariantAttributes>,
    /// The name of the variant.
    pub name: String,
    /// The content of the variant.
    pub content: VariantContent,
}

/// The `serde` attributes of a variant that the macro understands.
#[derive(Debug, Clone, PartialEq)]
pub struct SerdeVariantAttributes {
    /// The rule by which the variant is renamed.
    pub rename: Option<RenameRule>,
    /// The rule by which the fields of the variant are renamed.
    pub rename_all: Option<RenameRule>,
}

impl Default for SerdeVariantAttributes {
    fn default() -> (r: Self)
        ensures
            r.rename is None,
            r.rename_all is None,
    {
        SerdeVariantAttributes { rename: None, rename_all: None }
    }
}

/// The content of an enum variant.
#[derive(Debug, Clone, PartialEq)]
pub enum VariantContent {
    /// A unit variant.
    Unit,
    /// A variant with a single unnamed field.
    Unnamed(Type),
    /// A variant with any number of named fields.
    Named(Vec<NamedField>),
}

/// Represents a type use.
#[derive(Debug, PartialEq)]
pub enum Type {
    /// A path representing some type.
    Path(TypePath),
    /// A type reference.
    Reference(TypeReference),
    /// A dynamically-sized array.
    Slice(Box<Type>),
    /// A fixed-size array.
    Array(Box<Type>),
}

/// A reference to a value of some type.
#[derive(Debug, PartialEq)]
pub struct TypeReference {
    /// The lifetime of the reference.
    pub lifetime: Lifetime,
    /// The type that is referred to.
    pub ty: Box<Type>,
}

/// A lifetime.
#[derive(Debug, Clone, PartialEq)]
pub struct Lifetime {
    /// The name of the lifetime, without the apostrophe.
    pub name: String,
}

/// The name of a type (struct or enum) declared elsewhere.
#[derive(Debug, PartialEq)]
pub struct TypePath {
    /// The segments that make up the name of the type.
    pub segments: Vec<PathSegment>,
}

/// A path segment.
#[derive(Debug, PartialEq)]
pub struct PathSegment {
    /// The name of the segment.
    pub name: String,
    /// The arguments provided in the segment.
    pub arguments: Vec<GenericArgument>,
}

/// A generic argument provided to a path segment.
#[derive(Debug, PartialEq)]
pub enum GenericArgument {
    /// A type argument.
    Type(Type),
    /// A lifetime argument.
    Lifetime(String),
}

// ---------------------------------------------------------------------------
// Views
// ---------------------------------------------------------------------------

impl View for RenameRule {
    type V = ir::RenameRule;

    open spec fn view(&self) -> ir::RenameRule {
        match *self {
            RenameRule::Lower => ir::RenameRule::LowerCase,
            RenameRule::Upper => ir::RenameRule::UpperCase,
            RenameRule::Pascal => ir::RenameRule::PascalCase,
            RenameRule::Camel => ir::RenameRule::CamelCase,
            RenameRule::Snake => ir::RenameRule::SnakeCase,
            RenameRule::ScreamingSnake => ir::RenameRule::ScreamingSnakeCase,
            RenameRule::Kebab => ir::RenameRule::KebabCase,
            RenameRule::ScreamingKebab => ir::RenameRule::ScreamingKebabCase,
        }
    }
}

impl View for Visibility {
    type V = ir::Visibility;

    open spec fn view(&self) -> ir::Visibility {
        match *self {
            Visibility::Inherited => ir::Visibility::Inherited,
            Visibility::Pub => ir::Visibility::Pub,
        }
    }
}

/// The view of an optional rename rule.
pub open spec fn rule_view(rule: Option<RenameRule>) -> Option<ir::RenameRule> {
    match rule {
        Some(rule) => Some(rule@),
        None => None,
    }
}

/// The view of an optional string.
pub open spec fn text_view(text: Option<String>) -> Option<Seq<char>> {
    match text {
        Some(text) => Some(text@),
        None => None,
    }
}

/// The view of a type, by recursion over its structure.
pub open spec fn type_view(t: Type) -> ir::TypeView
    decreases t,
{
    match t {
        Type::Path(p) => ir::TypeView::Path(
            Seq::new(
                p.segments@.len(),
                |i: int|
                    if 0 <= i < p.segments@.len() {
                        segment_view(p.segments@[i])
                    } else {
                        arbitrary()
                    },
            ),
        ),
        Type::Reference(r) => ir::TypeView::Reference(
            r.lifetime.name@,
            Box::new(type_view(*r.ty)),
        ),
        Type::Slice(s) => ir::TypeView::Slice(Box::new(type_view(*s))),
        Type::Array(a) => ir::TypeView::Array(Box::new(type_view(*a))),
    }
}

/// The view of a path segment, by recursion over its structure.
pub open spec fn segment_view(s: PathSegment) -> ir::SegmentView
    decreases s,
{
    ir::SegmentView {
        name: s.name@,
        arguments: Seq::new(
            s.arguments@.len(),
            |i: int|
                if 0 <= i < s.arguments@.len() {
                    argument_view(s.arguments@[i])
                } else {
                    arbitrary()
                },
        ),
    }
}

/// The view of a generic argument, by recursion over its structure.
pub open spec fn argument_view(a: GenericArgument) -> ir::ArgumentView
    decreases a,
{
    match a {
        GenericArgument::Type(t) => ir::ArgumentView::Type(type_view(t)),
        GenericArgument::Lifetime(l) => ir::ArgumentView::Lifetime(l@),
    }
}

impl View for Type {
    type V = ir::TypeView;

    open spec fn view(&self) -> ir::TypeView {
        type_view(*self)
    }
}

impl View for PathSegment {
    type V = ir::SegmentView;

    open spec fn view(&self) -> ir::SegmentView {
        segment_view(*self)
    }
}

impl View for GenericArgument {
    type V = ir::ArgumentView;

    open spec fn view(&self) -> ir::ArgumentView {
        argument_view(*self)
    }
}

impl View for TypePath {
    type V = Seq<ir::SegmentView>;

    open spec fn view(&self) -> Seq<ir::SegmentView> {
        self.segments@.map_values(|s: PathSegment| s@)
    }
}

impl View for TypeReference {
    type V = (Seq<char>, ir::TypeView);

    open spec fn view(&self) -> (Seq<char>, ir::TypeView) {
        (self.lifetime.name@, (*self.ty)@)
    }
}

impl View for NamedField {
    type V = ir::FieldView;

    open spec fn view(&self) -> ir::FieldView {
        ir::FieldView { name: self.name@, ty: self.ty@ }
    }
}

impl View for UnnamedField {
    type V = ir::TypeView;

    open spec fn view(&self) -> ir::TypeView {
        self.ty@
    }
}

impl View for GenericParameter {
    type V = ir::ParameterView;

    open spec fn view(&self) -> ir::ParameterView {
        match *self {
            GenericParameter::Type(name) => ir::ParameterView::Type(name@),
            GenericParameter::Lifetime(name) => ir::ParameterView::Lifetime(name@),
        }
    }
}

impl View for StructVariant {
    type V = ir::StructContentView;

    open spec fn view(&self) -> ir::StructContentView {
        match *self {
            StructVariant::NamedFields(fields) => ir::StructContentView::NamedFields(
                fields@.map_values(|f: NamedField| f@),
            ),
            StructVariant::UnnamedField(field) => ir::StructContentView::UnnamedField(field@),
        }
    }
}

impl View for Struct {
    type V = ir::StructView;

    open spec fn view(&self) -> ir::StructView {
        ir::StructView {
            visibility: self.visibility@,
            name: self.name@,
            parameters: self.parameters@.map_values(|p: GenericParameter| p@),
            content: self.content@,
        }
    }
}

impl View for VariantContent {
    type V = ir::VariantContentView;

    open spec fn view(&self) -> ir::VariantContentView {
        match *self {
            VariantContent::Unit => ir::VariantContentView::Unit,
            VariantContent::Unnamed(ty) => ir::VariantContentView::Unnamed(ty@),
            VariantContent::Named(fields) => ir::VariantContentView::Named(
                fields@.map_values(|f: NamedField| f@),
            ),
        }
    }
}

impl View for SerdeVariantAttributes {
    type V = ir::VariantAttributes;

    open spec fn view(&self) -> ir::VariantAttributes {
        ir::VariantAttributes {
            rename: rule_view(self.rename),
            rename_all: rule_view(self.rename_all),
        }
    }
}

impl View for Variant {
    type V = ir::VariantView;

    open spec fn view(&self) -> ir::VariantView {
        ir::VariantView {
            attributes: match self.serde {
                Some(serde) => serde@,
                None => ir::VariantAttributes { rename: None, rename_all: None },
            },
            name: self.name@,
            content: self.content@,
        }
    }
}

impl View for Enum {
    type V = ir::EnumView;

    open spec fn view(&self) -> ir::EnumView {
        ir::EnumView {
            visibility: self.visibility@,
            name: self.name@,
            parameters: self.parameters@.map_values(|p: GenericParameter| p@),
            variants: self.variants@.map_values(|v: Variant| v@),
        }
    }
}

impl View for Item {
    type V = ir::ItemView;

    open spec fn view(&self) -> ir::ItemView {
        match *self {
            Item::Struct(s) => ir::ItemView::Struct(s@),
            Item::Enum(e) => ir::ItemView::Enum(e@),
        }
    }
}

impl View for SerdeContainerAttributes {
    type V = ir::AttributesView;

    open spec fn view(&self) -> ir::AttributesView {
        ir::AttributesView {
            rename: rule_view(self.rename),
            rename_all: rule_view(self.rename_all),
            tag: text_view(self.tag),
            content: text_view(self.content),
        }
    }
}

impl View for Container {
    type V = ir::ContainerView;

    open spec fn view(&self) -> ir::ContainerView {
        ir::ContainerView {
            attributes: match self.serde {
                Some(serde) => serde@,
                None => ir::AttributesView {
                    rename: None,
                    rename_all: None,
                    tag: None,
                    content: None,
                },
            },
            item: self.item@,
        }
    }
}

/// The view of a type is made of the views of its parts.
pub proof fn lemma_type_view(t: Type)
    ensures
        t@ == match t {
            Type::Path(p) => ir::TypeView::Path(p@),
            Type::Reference(r) => ir::TypeView::Reference(r@.0, Box::new(r@.1)),
            Type::Slice(s) => ir::TypeView::Slice(Box::new((*s)@)),
            Type::Array(a) => ir::TypeView::Array(Box::new((*a)@)),
        },
{
    match t {
        Type::Path(p) => {
            assert(t@->Path_0 =~= p@);
        },
        _ => {},
    }
}

/// The view of a path segment is made of its name and the views of its
/// arguments.
pub proof fn lemma_segment_view(s: PathSegment)
    ensures
        s@ == (ir::SegmentView {
            name: s.name@,
            arguments: s.arguments@.map_values(|a: GenericArgument| a@),
        }),
{
    assert(s@.arguments =~= s.arguments@.map_values(|a: GenericArgument| a@));
}

// ---------------------------------------------------------------------------
// Rename rules
// ---------------------------------------------------------------------------

/// The rename rule that a string names, if any.
pub open spec fn rule_of_name(name: Seq<char>) -> Option<RenameRule> {
    if name == "lowercase"@ {
        Some(RenameRule::Lower)
    } else if name == "UPPERCASE"@ {
        Some(RenameRule::Upper)
    } else if name == "PascalCase"@ {
        Some(RenameRule::Pascal)
    } else if name == "camelCase"@ {
        Some(RenameRule::Camel)
    } else if name == "snake_case"@ {
        Some(RenameRule::Snake)
    } else if name == "SCREAMING_SNAKE_CASE"@ {
        Some(RenameRule::ScreamingSnake)
    } else if name == "kebab-case"@ {
        Some(RenameRule::Kebab)
    } else if name == "SCREAMING-KEBAB-CASE"@ {
        Some(RenameRule::ScreamingKebab)
    } else {
        None
    }
}

impl RenameRule {
    /// The rename rule that the string names, if any.
    pub fn from_string(s: String) -> (rule: Option<Self>)
        ensures
            rule == rule_of_name(s@),
    {
        let name = s.as_str();
        if str_eq(name, "lowercase") {
            Some(RenameRule::Lower)
        } else if str_eq(name, "UPPERCASE") {
            Some(RenameRule::Upper)
        } else if str_eq(name, "PascalCase") {
            Some(RenameRule::Pascal)
        } else if str_eq(name, "camelCase") {
            Some(RenameRule::Camel)
        } else if str_eq(name, "snake_case") {
            Some(RenameRule::Snake)
        } else if str_eq(name, "SCREAMING_SNAKE_CASE") {
            Some(RenameRule::ScreamingSnake)
        } else if str_eq(name, "kebab-case") {
            Some(RenameRule::Kebab)
        } else if str_eq(name, "SCREAMING-KEBAB-CASE") {
            Some(RenameRule::ScreamingKebab)
        } else {
            None
        }
    }
}

// ---------------------------------------------------------------------------
// Copies
// ---------------------------------------------------------------------------

fn clone_type(t: &Type) -> (r: Type)
    ensures
        r@ == t@,
    decreases t,
{
    let r = match t {
        Type::Path(p) => Type::Path(clone_path(p)),
        Type::Reference(r) => Type::Reference(
            TypeReference {
                lifetime: Lifetime { name: r.lifetime.name.clone() },
                ty: Box::new(clone_type(&r.ty)),
            },
        ),
        Type::Slice(s) => Type::Slice(Box::new(clone_type(s))),
        Type::Array(a) => Type::Array(Box::new(clone_type(a))),
    };
    proof {
        lemma_type_view(*t);
        lemma_type_view(r);
    }
    r
}

fn clone_path(p: &TypePath) -> (r: TypePath)
    ensures
        r@ == p@,
    decreases p,
{
    let mut segments: Vec<PathSegment> = Vec::new();
    let mut i: usize = 0;
    while i < p.segments.len()
        invariant
            i <= p.segments.len(),
            segments@.len() == i,
            forall|j: int| 0 <= j < i ==> segments@[j]@ == p.segments@[j]@,
        decreases p.segments.len() - i,
    {
        segments.push(clone_segment(&p.segments[i]));
        i += 1;
    }
    let r = TypePath { segments };
    assert(r@ =~= p@);
    r
}

fn clone_segment(s: &PathSegment) -> (r: PathSegment)
    ensures
        r@ == s@,
    decreases s,
{
    let mut arguments: Vec<GenericArgument> = Vec::new();
    let mut i: usize = 0;
    while i < s.arguments.len()
        invariant
            i <= s.arguments.len(),
            arguments@.len() == i,
            forall|j: int| 0 <= j < i ==> arguments@[j]@ == s.arguments@[j]@,
        decreases s.arguments.len() - i,
    {
        arguments.push(clone_argument(&s.arguments[i]));
        i += 1;
    }
    let r = PathSegment { name: s.name.clone(), arguments };
    proof {
        lemma_segment_view(*s);
        lemma_segment_view(r);
        assert(r@.arguments =~= s@.arguments);
    }
    r
}

fn clone_argument(a: &GenericArgument) -> (r: GenericArgument)
    ensures
        r@ == a@,
    decreases a,
{
    match a {
        GenericArgument::Type(t) => GenericArgument::Type(clone_type(t)),
        GenericArgument::Lifetime(l) => GenericArgument::Lifetime(l.clone()),
    }
}

impl Clone for Type {
    /// A copy with the same view.
    fn clone(&self) -> (r: Self)
        ensures
            r@ == self@,
    {
        clone_type(self)
    }
}

impl Clone for TypePath {
    /// A copy with the same view.
    fn clone(&self) -> (r: Self)
        ensures
            r@ == self@,
    {
        clone_path(self)
    }
}

impl Clone for PathSegment {
    /// A copy with the same view.
    fn clone(&self) -> (r: Self)
        ensures
            r@ == self@,
    {
        clone_segment(self)
    }
}

impl Clone for GenericArgument {
    /// A copy with the same view.
    fn clone(&self) -> (r: Self)
        ensures
            r@ == self@,
    {
        clone_argument(self)
    }
}

impl Clone for TypeReference {
    /// A copy with the same view.
    fn clone(&self) -> (r: Self)
        ensures
            r@ == self@,
    {
        TypeReference {
            lifetime: Lifetime { name: self.lifetime.name.clone() },
            ty: Box::new(clone_type(&self.ty)),
        }
    }
}

} // verus!
