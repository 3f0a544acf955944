//! The text of each node of the syntax tree.
//!
//! The text of a node depends on the view of the node alone. Fields are
//! indented by a tab, every field and every alias ends in `;`, and the cases
//! of a union stand on lines of their own.
use vstd::prelude::*;
use crate::text::{chars_of, is_ascii_digit, is_ascii_lowercase, is_ascii_uppercase};
use crate::typescript::ast::{
    lemma_segment_view, lemma_type_view, ArrayType, BuiltinType, Definition, DefinitionView,
    Field, FieldView, Interface, InterfaceView, IntersectionType, LiteralType, ObjectType,
    PathSegment, SegmentView, Type, TypeAlias, TypeAliasView, TypePath, TypeView, UnionType,
    Variant,
};
use vstd::string::StringExecFns;

verus! {

/// Whether an identifier may start with `c`: an ASCII letter or `_`.
pub open spec fn is_identifier_start(c: char) -> bool {
    is_ascii_uppercase(c) || is_ascii_lowercase(c) || c == '_'
}

/// Whether an identifier may go on with `c`: an ASCII letter, an ASCII digit
/// or `_`.
pub open spec fn is_identifier_part(c: char) -> bool {
    is_identifier_start(c) || is_ascii_digit(c)
}

/// Whether `s` is an identifier: an ASCII letter or `_`, followed by any
/// number of ASCII letters, ASCII digits and `_`.
pub open spec fn valid_identifier(s: Seq<char>) -> bool {
    &&& s.len() > 0
    &&& is_identifier_start(s[0])
    &&& forall|i: int| 1 <= i < s.len() ==> is_identifier_part(#[trigger] s[i])
}

/// The text of a built-in type.
pub open spec fn builtin_text(builtin: BuiltinType) -> Seq<char> {
    match builtin {
        BuiltinType::Number => "number"@,
        BuiltinType::Boolean => "boolean"@,
        BuiltinType::String => "string"@,
        BuiltinType::Null => "null"@,
        BuiltinType::Never => "never"@,
    }
}

/// The text of a type.
///
/// - A path is its segments, separated by `.`.
/// - An object is `{`, each field after a space, and ` }`.
/// - A literal is the string between double quotes.
/// - An array is the type of its items, followed by `[]`.
/// - A union is its cases, each on a line of its own after a tab and `| `.
/// - An intersection is its two sides, separated by ` & `.
pub open spec fn type_text(t: TypeView) -> Seq<char>
    decreases t,
{
    match t {
        TypeView::Builtin(builtin) => builtin_text(builtin),
        TypeView::Path(segments) => path_text(segments),
        TypeView::Object(fields) => "{"@ + object_fields_text(fields) + " }"@,
        TypeView::Literal(value) => "\""@ + value + "\""@,
        TypeView::Array(item) => type_text(*item) + "[]"@,
        TypeView::Union(cases) => union_text(cases),
        TypeView::Intersection(left, right) => type_text(*left) + " & "@ + type_text(*right),
    }
}

/// The text of a path: its segments, separated by `.`.
pub open spec fn path_text(segments: Seq<SegmentView>) -> Seq<char>
    decreases segments,
{
    if segments.len() == 0 {
        Seq::empty()
    } else if segments.len() == 1 {
        segment_text(segments.last())
    } else {
        path_text(segments.drop_last()) + "."@ + segment_text(segments.last())
    }
}

/// The text of a path segment: its name, and its arguments between `<` and
/// `>` where it has any.
pub open spec fn segment_text(segment: SegmentView) -> Seq<char>
    decreases segment,
{
    if segment.arguments.len() == 0 {
        segment.name
    } else {
        segment.name + "<"@ + arguments_text(segment.arguments) + ">"@
    }
}

/// The text of the arguments of a segment, separated by `, `.
pub open spec fn arguments_text(arguments: Seq<TypeView>) -> Seq<char>
    decreases arguments,
{
    if arguments.len() == 0 {
        Seq::empty()
    } else if arguments.len() == 1 {
        type_text(arguments.last())
    } else {
        arguments_text(arguments.drop_last()) + ", "@ + type_text(arguments.last())
    }
}

/// The text of the fields of an object: each field after a space.
pub open spec fn object_fields_text(fields: Seq<FieldView>) -> Seq<char>
    decreases fields,
{
    if fields.len() == 0 {
        Seq::empty()
    } else {
        object_fields_text(fields.drop_last()) + " "@ + field_text(fields.last())
    }
}

/// The text of a field: its name, `: `, its type and `;`. A name that is not
/// an identifier stands between single quotes.
pub open spec fn field_text(field: FieldView) -> Seq<char>
    decreases field,
{
    field_name_text(field.name) + ": "@ + type_text(field.ty) + ";"@
}

/// The text of the name of a field: the name itself where it is an
/// identifier, else the name between single quotes.
pub open spec fn field_name_text(name: Seq<char>) -> Seq<char> {
    if valid_identifier(name) {
        name
    } else {
        "'"@ + name + "'"@
    }
}

/// The text of a union: each case on a line of its own, after a tab and `| `.
pub open spec fn union_text(cases: Seq<TypeView>) -> Seq<char>
    decreases cases,
{
    if cases.len() == 0 {
        Seq::empty()
    } else {
        union_text(cases.drop_last()) + "\n\t| "@ + type_text(cases.last())
    }
}

/// The names of generic parameters, separated by `, `.
pub open spec fn parameter_names_text(parameters: Seq<Seq<char>>) -> Seq<char>
    decreases parameters.len(),
{
    if parameters.len() == 0 {
        Seq::empty()
    } else if parameters.len() == 1 {
        parameters.last()
    } else {
        parameter_names_text(parameters.drop_last()) + ", "@ + parameters.last()
    }
}

/// The text of the generic parameters of a definition: nothing where there
/// are none, else their names between `<` and `>`.
pub open spec fn parameters_text(parameters: Seq<Seq<char>>) -> Seq<char> {
    if parameters.len() == 0 {
        Seq::empty()
    } else {
        "<"@ + parameter_names_text(parameters) + ">"@
    }
}

/// The text before an exported definition.
pub open spec fn export_text(export: bool) -> Seq<char> {
    if export {
        "export "@
    } else {
        Seq::empty()
    }
}

/// The text of the fields of an interface: each on a line of its own, after
/// a tab.
pub open spec fn interface_fields_text(fields: Seq<FieldView>) -> Seq<char>
    decreases fields.len(),
{
    if fields.len() == 0 {
        Seq::empty()
    } else {
        interface_fields_text(fields.drop_last()) + "\t"@ + field_text(fields.last()) + "\n"@
    }
}

/// The text of an interface.
pub open spec fn interface_text(interface: InterfaceView) -> Seq<char> {
    export_text(interface.export) + "interface "@ + interface.name + parameters_text(
        interface.parameters,
    ) + " {\n"@ + interface_fields_text(interface.fields) + "}\n"@
}

/// The text of a type alias. A union starts on the line after `=`; any other
/// type follows `= ` on the same line.
pub open spec fn alias_text(alias: TypeAliasView) -> Seq<char> {
    let equals = if alias.ty is Union {
        " ="@
    } else {
        " = "@
    };
    export_text(alias.export) + "type "@ + alias.name + parameters_text(alias.parameters) + equals
        + type_text(alias.ty) + ";\n"@
}

/// The text of a definition.
pub open spec fn definition_text(definition: DefinitionView) -> Seq<char> {
    match definition {
        DefinitionView::Interface(interface) => interface_text(interface),
        DefinitionView::Alias(alias) => alias_text(alias),
    }
}

/// Whether `string` is an identifier: an ASCII letter or `_`, followed by any
/// number of ASCII letters, ASCII digits and `_`.
pub fn is_valid_identifier(string: &str) -> (valid: bool)
    ensures
        valid == valid_identifier(string@),
{
    let chars = chars_of(string);
    if chars.len() == 0 {
        return false;
    }
    let first = chars[0];
    if !(('A' <= first && first <= 'Z') || ('a' <= first && first <= 'z') || first == '_') {
        return false;
    }
    let mut i: usize = 1;
    while i < chars.len()
        invariant
            chars@ == string@,
            1 <= i <= chars.len(),
            forall|j: int| 1 <= j < i ==> is_identifier_part(#[trigger] chars@[j]),
        decreases chars.len() - i,
    {
        let c = chars[i];
        if !(('A' <= c && c <= 'Z') || ('a' <= c && c <= 'z') || c == '_' || ('0' <= c && c
            <= '9')) {
            return false;
        }
        i += 1;
    }
    true
}

fn render_type(t: &Type) -> (text: String)
    ensures
        text@ == type_text(t@),
    decreases t,
{
    proof {
        lemma_type_view(*t);
    }
    match t {
        Type::Builtin(builtin) => builtin.to_string(),
        Type::Path(path) => render_path(path),
        Type::Object(object) => render_object(object),
        Type::Literal(literal) => literal.to_string(),
        Type::Array(array) => {
            let mut text = render_type(&array.0);
            text.append("[]");
            text
        },
        Type::Union(union) => render_union(union),
        Type::Intersection(intersection) => {
            let mut text = render_type(&intersection.left);
            text.append(" & ");
            let right = render_type(&intersection.right);
            text.append(right.as_str());
            text
        },
    }
}

fn render_path(path: &TypePath) -> (text: String)
    ensures
        text@ == path_text(path@),
    decreases path,
{
    let mut text = String::new();
    let mut i: usize = 0;
    while i < path.segments.len()
        invariant
            i <= path.segments.len(),
            text@ == path_text(path@.take(i as int)),
        decreases path.segments.len() - i,
    {
        proof {
            assert(path@.take(i + 1).drop_last() =~= path@.take(i as int));
            assert(path@.take(i + 1).last() == path.segments@[i as int]@);
        }
        if i > 0 {
            text.append(".");
        }
        let segment = render_segment(&path.segments[i]);
        text.append(segment.as_str());
        i += 1;
    }
    proof {
        assert(path@.take(i as int) =~= path@);
    }
    text
}

fn render_segment(segment: &PathSegment) -> (text: String)
    ensures
        text@ == segment_text(segment@),
    decreases segment,
{
    proof {
        lemma_segment_view(*segment);
    }
    let ghost arguments = segment@.arguments;
    let mut text = segment.name.clone();
    if segment.arguments.len() == 0 {
        return text;
    }
    text.append("<");
    let mut i: usize = 0;
    while i < segment.arguments.len()
        invariant
            i <= segment.arguments.len(),
            arguments == segment.arguments@.map_values(|a: Type| a@),
            text@ == segment.name@ + "<"@ + arguments_text(arguments.take(i as int)),
        decreases segment.arguments.len() - i,
    {
        proof {
            assert(arguments.take(i + 1).drop_last() =~= arguments.take(i as int));
            assert(arguments.take(i + 1).last() == segment.arguments@[i as int]@);
        }
        if i > 0 {
            text.append(", ");
        }
        let argument = render_type(&segment.arguments[i]);
        text.append(argument.as_str());
        i += 1;
    }
    proof {
        assert(arguments.take(i as int) =~= arguments);
    }
    text.append(">");
    text
}

fn render_object(object: &ObjectType) -> (text: String)
    ensures
        text@ == "{"@ + object_fields_text(object@) + " }"@,
    decreases object,
{
    let mut text = String::from_str("{");
    let mut i: usize = 0;
    while i < object.fields.len()
        invariant
            i <= object.fields.len(),
            text@ == "{"@ + object_fields_text(object@.take(i as int)),
        decreases object.fields.len() - i,
    {
        proof {
            assert(object@.take(i + 1).drop_last() =~= object@.take(i as int));
            assert(object@.take(i + 1).last() == object.fields@[i as int]@);
        }
        text.append(" ");
        let field = render_field(&object.fields[i]);
        text.append(field.as_str());
        i += 1;
    }
    proof {
        assert(object@.take(i as int) =~= object@);
    }
    text.append(" }");
    text
}

fn render_field(field: &Field) -> (text: String)
    ensures
        text@ == field_text(field@),
    decreases field,
{
    let mut text = String::new();
    if is_valid_identifier(field.name.as_str()) {
        text.append(field.name.as_str());
    } else {
        text.append("'");
        text.append(field.name.as_str());
        text.append("'");
    }
    text.append(": ");
    let ty = render_type(&field.ty);
    text.append(ty.as_str());
    text.append(";");
    text
}

fn render_union(union: &UnionType) -> (text: String)
    ensures
        text@ == union_text(union@),
    decreases union,
{
    let mut text = String::new();
    let mut i: usize = 0;
    while i < union.variants.len()
        invariant
            i <= union.variants.len(),
            text@ == union_text(union@.take(i as int)),
        decreases union.variants.len() - i,
    {
        proof {
            assert(union@.take(i + 1).drop_last() =~= union@.take(i as int));
            assert(union@.take(i + 1).last() == union.variants@[i as int]@);
        }
        text.append("\n\t| ");
        let case = render_type(&union.variants[i].0);
        text.append(case.as_str());
        i += 1;
    }
    proof {
        assert(union@.take(i as int) =~= union@);
    }
    text
}

/// The text of generic parameters: nothing where there are none, else their
/// names between `<` and `>`, separated by `, `.
fn render_parameters(parameters: &Vec<&'static str>) -> (text: String)
    ensures
        text@ == parameters_text(parameters@.map_values(|p: &'static str| p@)),
{
    let ghost names = parameters@.map_values(|p: &'static str| p@);
    let mut text = String::new();
    if parameters.len() == 0 {
        return text;
    }
    text.append("<");
    let mut i: usize = 0;
    while i < parameters.len()
        invariant
            i <= parameters.len(),
            names == parameters@.map_values(|p: &'static str| p@),
            text@ == "<"@ + parameter_names_text(names.take(i as int)),
        decreases parameters.len() - i,
    {
        proof {
            assert(names.take(i + 1).drop_last() =~= names.take(i as int));
            assert(names.take(i + 1).last() == parameters@[i as int]@);
        }
        if i > 0 {
            text.append(", ");
        }
        text.append(parameters[i]);
        i += 1;
    }
    proof {
        assert(names.take(i as int) =~= names);
    }
    text.append(">");
    text
}

/// The text before an exported definition.
fn render_export(export: bool) -> (text: String)
    ensures
        text@ == export_text(export),
{
    if export {
        String::from_str("export ")
    } else {
        String::new()
    }
}

impl BuiltinType {
    /// The text of the built-in type.
    pub fn to_string(&self) -> (text: String)
        ensures
            text@ == builtin_text(*self),
    {
        match self {
            BuiltinType::Number => String::from_str("number"),
            BuiltinType::Boolean => String::from_str("boolean"),
            BuiltinType::String => String::from_str("string"),
            BuiltinType::Null => String::from_str("null"),
            BuiltinType::Never => String::from_str("never"),
        }
    }
}

impl LiteralType {
    /// The text of the literal type: the string between double quotes.
    pub fn to_string(&self) -> (text: String)
        ensures
            text@ == "\""@ + self@ + "\""@,
    {
        match self {
            LiteralType::String(value) => {
                let mut text = String::from_str("\"");
                text.append(value.as_str());
                text.append("\"");
                text
            },
        }
    }
}

impl Type {
    /// The text of the type: see [`type_text`].
    pub fn to_string(&self) -> (text: String)
        ensures
            text@ == type_text(self@),
    {
        render_type(self)
    }
}

impl TypePath {
    /// The text of the path: its segments, separated by `.`.
    pub fn to_string(&self) -> (text: String)
        ensures
            text@ == path_text(self@),
    {
        render_path(self)
    }
}

impl PathSegment {
    /// The text of the segment: its name, and its arguments between `<` and
    /// `>` where it has any.
    pub fn to_string(&self) -> (text: String)
        ensures
            text@ == segment_text(self@),
    {
        render_segment(self)
    }
}

impl ObjectType {
    /// The text of the object type: `{`, each field after a space, and ` }`.
    pub fn to_string(&self) -> (text: String)
        ensures
            text@ == type_text(TypeView::Object(self@)),
    {
        render_object(self)
    }
}

impl Field {
    /// The text of the field: see [`field_text`].
    pub fn to_string(&self) -> (text: String)
        ensures
            text@ == field_text(self@),
    {
        render_field(self)
    }
}

impl ArrayType {
    /// The text of the array type: the type of its items, followed by `[]`.
    pub fn to_string(&self) -> (text: String)
        ensures
            text@ == type_text(TypeView::Array(Box::new(self@))),
    {
        let mut text = render_type(&self.0);
        text.append("[]");
        text
    }
}

impl UnionType {
    /// The text of the union: each case on a line of its own, after a tab
    /// and `| `.
    pub fn to_string(&self) -> (text: String)
        ensures
            text@ == union_text(self@),
    {
        render_union(self)
    }
}

impl Variant {
    /// The text of the variant: the text of its type.
    pub fn to_string(&self) -> (text: String)
        ensures
            text@ == type_text(self@),
    {
        render_type(&self.0)
    }
}

impl IntersectionType {
    /// The text of the intersection: its two sides, separated by ` & `.
    pub fn to_string(&self) -> (text: String)
        ensures
            text@ == type_text(TypeView::Intersection(Box::new(self@.0), Box::new(self@.1))),
    {
        let mut text = render_type(&self.left);
        text.append(" & ");
        let right = render_type(&self.right);
        text.append(right.as_str());
        text
    }
}

impl Interface {
    /// The text of the interface: see [`interface_text`].
    pub fn to_string(&self) -> (text: String)
        ensures
            text@ == interface_text(self@),
    {
        let ghost fields = self@.fields;
        let mut text = render_export(self.export);
        text.append("interface ");
        text.append(self.name.as_str());
        let parameters = render_parameters(&self.parameters);
        text.append(parameters.as_str());
        text.append(" {\n");
        let ghost head = text@;
        let mut i: usize = 0;
        while i < self.fields.len()
            invariant
                i <= self.fields.len(),
                fields == self.fields@.map_values(|f: Field| f@),
                text@ == head + interface_fields_text(fields.take(i as int)),
            decreases self.fields.len() - i,
        {
            proof {
                assert(fields.take(i + 1).drop_last() =~= fields.take(i as int));
                assert(fields.take(i + 1).last() == self.fields@[i as int]@);
            }
            text.append("\t");
            let field = render_field(&self.fields[i]);
            text.append(field.as_str());
            text.append("\n");
            i += 1;
        }
        proof {
            assert(fields.take(i as int) =~= fields);
        }
        text.append("}\n");
        text
    }
}

impl TypeAlias {
    /// The text of the type alias: see [`alias_text`].
    pub fn to_string(&self) -> (text: String)
        ensures
            text@ == alias_text(self@),
    {
        let mut text = render_export(self.export);
        text.append("type ");
        text.append(self.name.as_str());
        let parameters = render_parameters(&self.parameters);
        text.append(parameters.as_str());
        if self.ty.is_union() {
            text.append(" =");
        } else {
            text.append(" = ");
        }
        let ty = render_type(&self.ty);
        text.append(ty.as_str());
        text.append(";\n");
        text
    }
}

impl Definition {
    /// The text of the definition: see [`definition_text`].
    pub fn to_string(&self) -> (text: String)
        ensures
            text@ == definition_text(self@),
    {
        match self {
            Definition::Interface(interface) => interface.to_string(),
            Definition::Alias(alias) => alias.to_string(),
        }
    }
}

} // verus!
