use camo::ir::RenameRule;
use camo::typescript::{
    pascal_to_separated_case, push_separated_char, snake_to_non_snake_case, Renamer,
};

fn field(rule: RenameRule, name: &str) -> String {
    Renamer(Some(rule)).rename_field(name)
}

fn ty(rule: RenameRule, name: &str) -> String {
    Renamer(Some(rule)).rename_type(name)
}

#[test]
fn rename_field_four_five_six_by_every_rule() {
    assert_eq!(field(RenameRule::LowerCase, "four_five_six"), "four_five_six");
    assert_eq!(field(RenameRule::UpperCase, "four_five_six"), "FOUR_FIVE_SIX");
    assert_eq!(field(RenameRule::PascalCase, "four_five_six"), "FourFiveSix");
    assert_eq!(field(RenameRule::CamelCase, "four_five_six"), "fourFiveSix");
    assert_eq!(field(RenameRule::SnakeCase, "four_five_six"), "four_five_six");
    assert_eq!(field(RenameRule::ScreamingSnakeCase, "four_five_six"), "FOUR_FIVE_SIX");
    assert_eq!(field(RenameRule::KebabCase, "four_five_six"), "four-five-six");
    assert_eq!(field(RenameRule::ScreamingKebabCase, "four_five_six"), "FOUR-FIVE-SIX");
    assert_eq!(Renamer(None).rename_field("four_five_six"), "four_five_six");
}

#[test]
fn rename_type_four_five_six_by_every_rule() {
    assert_eq!(ty(RenameRule::LowerCase, "FourFiveSix"), "fourfivesix");
    assert_eq!(ty(RenameRule::UpperCase, "FourFiveSix"), "FOURFIVESIX");
    assert_eq!(ty(RenameRule::PascalCase, "FourFiveSix"), "FourFiveSix");
    assert_eq!(ty(RenameRule::CamelCase, "FourFiveSix"), "fourFiveSix");
    assert_eq!(ty(RenameRule::SnakeCase, "FourFiveSix"), "four_five_six");
    assert_eq!(ty(RenameRule::ScreamingSnakeCase, "FourFiveSix"), "FOUR_FIVE_SIX");
    assert_eq!(ty(RenameRule::KebabCase, "FourFiveSix"), "four-five-six");
    assert_eq!(ty(RenameRule::ScreamingKebabCase, "FourFiveSix"), "FOUR-FIVE-SIX");
    assert_eq!(Renamer(None).rename_type("FourFiveSix"), "FourFiveSix");
}

#[test]
fn rename_type_of_the_snake_case_string() {
    assert_eq!(ty(RenameRule::LowerCase, "four_five_six"), "four_five_six");
    assert_eq!(ty(RenameRule::UpperCase, "four_five_six"), "FOUR_FIVE_SIX");
    assert_eq!(ty(RenameRule::PascalCase, "four_five_six"), "four_five_six");
    assert_eq!(ty(RenameRule::CamelCase, "four_five_six"), "four_five_six");
    assert_eq!(ty(RenameRule::SnakeCase, "four_five_six"), "four_five_six");
    assert_eq!(ty(RenameRule::ScreamingSnakeCase, "four_five_six"), "FOUR_FIVE_SIX");
    assert_eq!(ty(RenameRule::KebabCase, "four_five_six"), "four_five_six");
    assert_eq!(ty(RenameRule::ScreamingKebabCase, "four_five_six"), "FOUR_FIVE_SIX");
}

#[test]
fn rename_type_foo_bar_to_snake_case() {
    assert_eq!(ty(RenameRule::SnakeCase, "FooBar"), "foo_bar");
    assert_eq!(ty(RenameRule::CamelCase, "FooBar"), "fooBar");
}

#[test]
fn rename_of_the_empty_name_is_empty() {
    let rules = [
        RenameRule::LowerCase,
        RenameRule::UpperCase,
        RenameRule::PascalCase,
        RenameRule::CamelCase,
        RenameRule::SnakeCase,
        RenameRule::ScreamingSnakeCase,
        RenameRule::KebabCase,
        RenameRule::ScreamingKebabCase,
    ];
    for rule in rules {
        assert_eq!(field(rule, ""), "");
        assert_eq!(ty(rule, ""), "");
    }
}

#[test]
fn case_is_changed_for_ascii_letters_only() {
    assert_eq!(field(RenameRule::UpperCase, "straße_é"), "STRAßE_é");
    assert_eq!(field(RenameRule::LowerCase, "ÀB_Σ"), "Àb_Σ");
    assert_eq!(field(RenameRule::PascalCase, "été_ñu"), "étéñu");
    assert_eq!(field(RenameRule::ScreamingKebabCase, "a_é"), "A-é");
    assert_eq!(ty(RenameRule::UpperCase, "Żaba"), "ŻABA");
    assert_eq!(ty(RenameRule::CamelCase, "Éa"), "Éa");
    assert_eq!(ty(RenameRule::ScreamingSnakeCase, "aÉb"), "A_ÉB");
}

#[test]
fn separator_goes_before_every_uppercase_character_but_the_first() {
    assert_eq!(pascal_to_separated_case('_', "FooBar"), "foo_bar");
    assert_eq!(pascal_to_separated_case('-', "FooBar"), "foo-bar");
    assert_eq!(pascal_to_separated_case('_', "HTTPServer"), "h_t_t_p_server");
    assert_eq!(pascal_to_separated_case('_', "foo"), "foo");
    assert_eq!(pascal_to_separated_case('_', "F"), "f");
    assert_eq!(pascal_to_separated_case('_', "fooÉtat"), "foo_État");
    assert_eq!(pascal_to_separated_case('_', "Foo1Bar"), "foo1_bar");
    assert_eq!(pascal_to_separated_case('_', ""), "");
}

#[test]
fn push_separated_char_by_flags() {
    let mut text = String::from("ab");
    push_separated_char(&mut text, '_', false, true, 'C');
    assert_eq!(text, "ab_c");
    push_separated_char(&mut text, '_', false, false, 'D');
    assert_eq!(text, "ab_cd");
    push_separated_char(&mut text, '-', true, true, 'E');
    assert_eq!(text, "ab_cde");
    push_separated_char(&mut text, '-', true, false, 'f');
    assert_eq!(text, "ab_cdef");
}

#[test]
fn words_are_joined_and_capitalized() {
    assert_eq!(snake_to_non_snake_case(true, "one_two_three"), "OneTwoThree");
    assert_eq!(snake_to_non_snake_case(false, "one_two_three"), "oneTwoThree");
    assert_eq!(snake_to_non_snake_case(false, "_one"), "One");
    assert_eq!(snake_to_non_snake_case(false, "one__two_"), "oneTwo");
    assert_eq!(snake_to_non_snake_case(true, "___"), "");
    assert_eq!(snake_to_non_snake_case(true, "a_1_b"), "A1B");
    assert_eq!(snake_to_non_snake_case(false, "already_Upper"), "alreadyUpper");
}

#[test]
fn kebab_case_replaces_every_underscore() {
    assert_eq!(field(RenameRule::KebabCase, "_a__b_"), "-a--b-");
    assert_eq!(field(RenameRule::ScreamingKebabCase, "_a__b_"), "-A--B-");
}
