//! The errors of the derive front end.
use vstd::prelude::*;

verus! {

/// A region of source code, as `proc_macro2` holds it.
#[verifier::external_type_specification]
#[verifier::external_body]
pub struct ExSpan(proc_macro2::Span);

/// An error of `syn`, with its message and its place in the source code.
#[verifier::external_type_specification]
#[verifier::external_body]
pub struct ExSynError(syn::Error);

/// An error of the derive front end: what is wrong, and where.
#[derive(Debug)]
pub struct DeriveError {
    /// What is wrong.
    pub kind: ErrorKind,
    /// The place in the source code that the error is about.
    pub span: proc_macro2::Span,
}

/// What is wrong with a type definition.
#[derive(Debug)]
pub enum ErrorKind {
    /// The definition is a union.
    Union,
    /// The definition is a struct without fields.
    UnitStruct,
    /// A generic parameter or argument is bounded.
    GenericBounds,
    /// A generic parameter or argument is a constant.
    ConstGenerics,
    /// A variant has an explicit discriminant.
    ExplicicitDiscriminant,
    /// A variant has more than one unnamed field.
    EnumMultipleUnnamedFields,
    /// A struct has more than one unnamed field.
    StructMultipleUnnamedFields,
    /// A type is a function type.
    FunctionTypes,
    /// A type is the call of a macro.
    Macros,
    /// A path is qualified by a self type.
    SelfQualifiedTypes,
    /// A type of some other kind that is not supported.
    MiscTypes,
    /// An attribute could not be parsed.
    Syn(syn::Error),
    /// A `rename` or `rename_all` attribute names no rename rule.
    InvalidRenameRule,
    /// The visibility of the definition is restricted.
    VisibilityRestricted,
    /// A generic argument of some other kind that is not supported.
    UnknownGenericArgument,
}

/// The message of an error.
pub open spec fn message_of(kind: ErrorKind) -> Seq<char> {
    match kind {
        ErrorKind::Union => "`camo` does not support unions"@,
        ErrorKind::UnitStruct => "`camo` does not support unit structs"@,
        ErrorKind::GenericBounds => "`camo` does not support generic bounds"@,
        ErrorKind::ConstGenerics => "`camo` does not support const generics"@,
        ErrorKind::ExplicicitDiscriminant => "`camo` does not support explicit discriminants"@,
        ErrorKind::EnumMultipleUnnamedFields => "`camo` does not support multiple unnamed fields in enums"@,
        ErrorKind::StructMultipleUnnamedFields => "`camo` does not support multiple unnamed fields in structs"@,
        ErrorKind::FunctionTypes => "`camo` does not support function types"@,
        ErrorKind::Macros => "`camo` does not support macros"@,
        ErrorKind::SelfQualifiedTypes => "`camo` does not support self-qualified types in paths"@,
        ErrorKind::MiscTypes => "`camo` does not support this type"@,
        ErrorKind::Syn(_) => "`camo`: failed to parse attribute"@,
        ErrorKind::InvalidRenameRule => "`camo`: invalid rename rule"@,
        ErrorKind::VisibilityRestricted => "`camo` does not support restricted visibility"@,
        ErrorKind::UnknownGenericArgument => "`camo` does not support this generic argument"@,
    }
}

impl ErrorKind {
    /// The message of the error.
    pub fn message(&self) -> (text: &'static str)
        ensures
            text@ == message_of(*self),
    {
        match self {
            ErrorKind::Union => "`camo` does not support unions",
            ErrorKind::UnitStruct => "`camo` does not support unit structs",
            ErrorKind::GenericBounds => "`camo` does not support generic bounds",
            ErrorKind::ConstGenerics => "`camo` does not support const generics",
            ErrorKind::ExplicicitDiscriminant => "`camo` does not support explicit discriminants",
            ErrorKind::EnumMultipleUnnamedFields => {
                "`camo` does not support multiple unnamed fields in enums"
            },
            ErrorKind::StructMultipleUnnamedFields => {
                "`camo` does not support multiple unnamed fields in structs"
            },
            ErrorKind::FunctionTypes => "`camo` does not support function types",
            ErrorKind::Macros => "`camo` does not support macros",
            ErrorKind::SelfQualifiedTypes => {
                "`camo` does not support self-qualified types in paths"
            },
            ErrorKind::MiscTypes => "`camo` does not support this type",
            ErrorKind::Syn(_) => "`camo`: failed to parse attribute",
            ErrorKind::InvalidRenameRule => "`camo`: invalid rename rule",
            ErrorKind::VisibilityRestricted => "`camo` does not support restricted visibility",
            ErrorKind::UnknownGenericArgument => "`camo` does not support this generic argument",
        }
    }
}

} // verus!
