//! What holds of every definition and of every variant.
use vstd::prelude::*;
use crate::ir;
use crate::ir::RenameRule;
use crate::typescript::ast::{Definition, TypeView};
use crate::typescript::render::definition_text;
use crate::typescript::rename::renamed_type;
use crate::text::{
    is_ascii_lowercase, is_ascii_uppercase, to_ascii_lowercase, to_ascii_uppercase,
};
use crate::typescript::tagging::{
    mapped_fields, tagged_variant, tagged_variants, variant_name, Tagging,
};

verus! {

/// Rendering the same definition twice yields the same text: whatever two
/// calls of [`Definition::to_string`] on one definition return, the two
/// strings hold the same characters.
pub proof fn lemma_rendering_is_repeatable(definition: Definition, first: String, second: String)
    requires
        call_ensures(Definition::to_string, (&definition,), first),
        call_ensures(Definition::to_string, (&definition,), second),
    ensures
        first@ == second@,
        first@ == definition_text(definition@),
{
}

/// Two definitions with the same view have the same text.
pub proof fn lemma_text_depends_on_view(first: Definition, second: Definition)
    requires
        first@ == second@,
    ensures
        definition_text(first@) == definition_text(second@),
{
}

/// The type that holds the content of a variant, within the representation
/// `t` of that variant.
pub open spec fn payload(tagging: Tagging, t: TypeView) -> TypeView {
    match tagging {
        Tagging::External => t->Object_0[0].ty,
        Tagging::Adjacent { .. } => t->Object_0[1].ty,
        Tagging::Internal { .. } => *t->Intersection_1,
    }
}

/// The fields of a variant are renamed by the `rename_all` rule of that
/// variant alone: in every representation, and whatever the `rename_all`
/// rule of the container is, the content of a variant with named fields is
/// the object of its fields renamed by the rule of the variant.
pub proof fn lemma_variant_fields_follow_variant_rule(
    tagging: Tagging,
    rename_all: Option<RenameRule>,
    variant: ir::VariantView,
)
    requires
        variant.content is Named,
    ensures
        payload(tagging, tagged_variant(tagging, rename_all, variant)) == TypeView::Object(
            mapped_fields(variant.attributes.rename_all, variant.content->Named_0),
        ),
{
}

/// The name of a variant is renamed by the `rename` rule of the variant;
/// a variant without one is governed by the `rename_all` rule of the
/// container.
pub proof fn lemma_variant_name_follows_rule(
    rename_all: Option<RenameRule>,
    variant: ir::VariantView,
)
    ensures
        variant.attributes.rename is Some ==> variant_name(rename_all, variant) == renamed_type(
            variant.attributes.rename,
            variant.name,
        ),
        variant.attributes.rename is None ==> variant_name(rename_all, variant) == renamed_type(
            rename_all,
            variant.name,
        ),
{
}

/// A rule on one variant changes nothing for the others: the case of a
/// variant in the union depends on that variant alone, and the cases stand in
/// the order of declaration, one for each variant.
pub proof fn lemma_cases_follow_declaration_order(
    tagging: Tagging,
    rename_all: Option<RenameRule>,
    variants: Seq<ir::VariantView>,
    i: int,
)
    requires
        0 <= i < variants.len(),
    ensures
        tagged_variants(tagging, rename_all, variants).len() == variants.len(),
        tagged_variants(tagging, rename_all, variants)[i] == tagged_variant(
            tagging,
            rename_all,
            variants[i],
        ),
{
}

/// Changing the case of a name changes ASCII letters only: the name keeps
/// its length, and every character that is not an ASCII letter is kept.
pub proof fn lemma_case_keeps_other_characters(name: Seq<char>, i: int)
    requires
        0 <= i < name.len(),
        !is_ascii_lowercase(name[i]),
        !is_ascii_uppercase(name[i]),
    ensures
        to_ascii_uppercase(name).len() == name.len(),
        to_ascii_lowercase(name).len() == name.len(),
        to_ascii_uppercase(name)[i] == name[i],
        to_ascii_lowercase(name)[i] == name[i],
{
}

} // verus!
