//! Renaming of identifiers by a rename rule.
//!
//! Field names are written in snake case and the names of types and variants
//! in Pascal case, so each has a renaming of its own. Letters are uppercased
//! and lowercased as ASCII letters: every other character is kept as it is.
use vstd::prelude::*;
use crate::ir::RenameRule;
use crate::text::{
    ascii_lowercase, ascii_uppercase, char_is_uppercase, char_to_ascii_lowercase,
    char_to_ascii_uppercase, push_char, replace_char, str_replace_char, str_to_ascii_lowercase,
    str_to_ascii_uppercase, to_ascii_lowercase, to_ascii_uppercase, unicode_uppercase,
};
use vstd::string::StringExecFns;

verus! {

/// Whether a word starts at index `i` of the snake case name `s`: after an
/// underscore, or at the start of the name where `first` says so.
pub open spec fn word_start(first: bool, s: Seq<char>, i: int) -> bool {
    if i == 0 {
        first
    } else {
        s[i - 1] == '_'
    }
}

/// The snake case name `s` with the first letter of each word uppercased.
pub open spec fn capitalized_words(capitalize_first: bool, s: Seq<char>) -> Seq<char> {
    Seq::new(
        s.len(),
        |i: int|
            if word_start(capitalize_first, s, i) {
                ascii_uppercase(s[i])
            } else {
                s[i]
            },
    )
}

/// The snake case name `s` without its underscores, the first letter of each
/// word uppercased. The first word counts only where `capitalize_first` holds.
pub open spec fn non_snake_case(capitalize_first: bool, s: Seq<char>) -> Seq<char> {
    capitalized_words(capitalize_first, s).filter(|c: char| c != '_')
}

/// What one character of a Pascal case name becomes: the character
/// lowercased, after `separator` where the character is uppercase and not the
/// first of the name.
pub open spec fn separated_char(separator: char, first: bool, uppercase: bool, c: char) -> Seq<
    char,
> {
    if !first && uppercase {
        seq![separator, ascii_lowercase(c)]
    } else {
        seq![ascii_lowercase(c)]
    }
}

/// The Pascal case name `s` with `separator` put before each uppercase
/// character but the first, and all letters lowercased.
pub open spec fn separated_case(separator: char, s: Seq<char>) -> Seq<char>
    decreases s.len(),
{
    if s.len() == 0 {
        Seq::empty()
    } else {
        separated_case(separator, s.drop_last()) + separated_char(
            separator,
            s.len() == 1,
            unicode_uppercase(s.last()),
            s.last(),
        )
    }
}

/// `s` with its first character lowercased.
pub open spec fn first_lowercased(s: Seq<char>) -> Seq<char> {
    Seq::new(
        s.len(),
        |i: int|
            if i == 0 {
                ascii_lowercase(s[i])
            } else {
                s[i]
            },
    )
}

/// The name of a field, written in snake case, after renaming by `rule`.
pub open spec fn renamed_field(rule: Option<RenameRule>, name: Seq<char>) -> Seq<char> {
    match rule {
        Some(RenameRule::LowerCase) => to_ascii_lowercase(name),
        Some(RenameRule::UpperCase) => to_ascii_uppercase(name),
        Some(RenameRule::PascalCase) => non_snake_case(true, name),
        Some(RenameRule::CamelCase) => non_snake_case(false, name),
        Some(RenameRule::SnakeCase) => name,
        Some(RenameRule::ScreamingSnakeCase) => to_ascii_uppercase(name),
        Some(RenameRule::KebabCase) => replace_char(name, '_', '-'),
        Some(RenameRule::ScreamingKebabCase) => replace_char(to_ascii_uppercase(name), '_', '-'),
        None => name,
    }
}

/// The name of a type or variant, written in Pascal case, after renaming by
/// `rule`.
pub open spec fn renamed_type(rule: Option<RenameRule>, name: Seq<char>) -> Seq<char> {
    match rule {
        Some(RenameRule::LowerCase) => to_ascii_lowercase(name),
        Some(RenameRule::UpperCase) => to_ascii_uppercase(name),
        Some(RenameRule::PascalCase) => name,
        Some(RenameRule::CamelCase) => first_lowercased(name),
        Some(RenameRule::SnakeCase) => separated_case('_', name),
        Some(RenameRule::ScreamingSnakeCase) => to_ascii_uppercase(separated_case('_', name)),
        Some(RenameRule::KebabCase) => separated_case('-', name),
        Some(RenameRule::ScreamingKebabCase) => to_ascii_uppercase(separated_case('-', name)),
        None => name,
    }
}

/// Joins the words of a snake case name, the first letter of each word
/// uppercased; that of the first word only where `capitalize_first` is set.
pub fn snake_to_non_snake_case(capitalize_first: bool, field: &str) -> (result: String)
    ensures
        result@ == non_snake_case(capitalize_first, field@),
{
    let ghost kept = |c: char| c != '_';
    let ghost words = capitalized_words(capitalize_first, field@);
    let mut result = String::new();
    let mut capitalize = capitalize_first;
    proof {
        reveal(Seq::filter);
        assert(words.take(0).filter(kept) =~= Seq::<char>::empty());
    }
    for ch in it: field.chars()
        invariant
            it.seq() == field@,
            words == capitalized_words(capitalize_first, field@),
            kept == |c: char| c != '_',
            capitalize == word_start(capitalize_first, field@, it.index() as int),
            result@ == words.take(it.index() as int).filter(kept),
    {
        let ghost k = it.index() as int;
        proof {
            assert(words.take(k + 1) =~= words.take(k).push(words[k]));
            words.take(k).lemma_filter_push(words[k], kept);
        }
        if ch == '_' {
            capitalize = true;
        } else if capitalize {
            push_char(&mut result, char_to_ascii_uppercase(ch));
            capitalize = false;
        } else {
            push_char(&mut result, ch);
        }
    }
    assert(words.take(field@.len() as int) =~= words);
    result
}

/// Appends one character of a Pascal case name to `result`: the character
/// lowercased, after `separator` where `uppercase` is set and `first` is not.
pub fn push_separated_char(
    result: &mut String,
    separator: char,
    first: bool,
    uppercase: bool,
    ch: char,
)
    ensures
        final(result)@ == old(result)@ + separated_char(separator, first, uppercase, ch),
{
    if !first && uppercase {
        push_char(result, separator);
    }
    push_char(result, char_to_ascii_lowercase(ch));
}

/// Separates the words of a Pascal case name: `separator` is put before each
/// uppercase character but the first, and all letters are lowercased.
pub fn pascal_to_separated_case(separator: char, name: &str) -> (result: String)
    ensures
        result@ == separated_case(separator, name@),
{
    let mut result = String::new();
    let mut first = true;
    for ch in it: name.chars()
        invariant
            it.seq() == name@,
            first == (it.index() == 0),
            result@ == separated_case(separator, name@.take(it.index() as int)),
    {
        let ghost k = it.index() as int;
        proof {
            assert(name@.take(k + 1).drop_last() =~= name@.take(k));
            assert(name@.take(k + 1).last() == ch);
        }
        let uppercase = char_is_uppercase(ch);
        push_separated_char(&mut result, separator, first, uppercase, ch);
        first = false;
    }
    assert(name@.take(name@.len() as int) =~= name@);
    result
}

/// `name` with its first character lowercased.
fn lowercase_first(name: &str) -> (result: String)
    ensures
        result@ == first_lowercased(name@),
{
    let mut result = String::new();
    let mut first = true;
    for ch in it: name.chars()
        invariant
            it.seq() == name@,
            first == (it.index() == 0),
            result@ == first_lowercased(name@).take(it.index() as int),
    {
        if first {
            push_char(&mut result, char_to_ascii_lowercase(ch));
        } else {
            push_char(&mut result, ch);
        }
        first = false;
    }
    assert(first_lowercased(name@).take(name@.len() as int) =~= first_lowercased(name@));
    result
}

/// Renames identifiers by a rename rule; without a rule every name is kept.
#[derive(Clone, Copy, Debug)]
pub struct Renamer(pub Option<RenameRule>);

impl Renamer {
    /// Renames a field, whose name is written in snake case.
    pub fn rename_field(&self, name: &str) -> (result: String)
        ensures
            result@ == renamed_field(self.0, name@),
    {
        match self.0 {
            Some(RenameRule::LowerCase) => str_to_ascii_lowercase(name),
            Some(RenameRule::UpperCase) => str_to_ascii_uppercase(name),
            Some(RenameRule::PascalCase) => snake_to_non_snake_case(true, name),
            Some(RenameRule::CamelCase) => snake_to_non_snake_case(false, name),
            Some(RenameRule::SnakeCase) => String::from_str(name),
            Some(RenameRule::ScreamingSnakeCase) => str_to_ascii_uppercase(name),
            Some(RenameRule::KebabCase) => str_replace_char(name, '_', '-'),
            Some(RenameRule::ScreamingKebabCase) => {
                let upper = str_to_ascii_uppercase(name);
                str_replace_char(upper.as_str(), '_', '-')
            },
            None => String::from_str(name),
        }
    }

    /// Renames a type or a variant, whose name is written in Pascal case.
    pub fn rename_type(&self, name: &str) -> (result: String)
        ensures
            result@ == renamed_type(self.0, name@),
    {
        match self.0 {
            Some(RenameRule::LowerCase) => str_to_ascii_lowercase(name),
            Some(RenameRule::UpperCase) => str_to_ascii_uppercase(name),
            Some(RenameRule::PascalCase) => String::from_str(name),
            Some(RenameRule::CamelCase) => lowercase_first(name),
            Some(RenameRule::SnakeCase) => pascal_to_separated_case('_', name),
            Some(RenameRule::ScreamingSnakeCase) => {
                let separated = pascal_to_separated_case('_', name);
                str_to_ascii_uppercase(separated.as_str())
            },
            Some(RenameRule::KebabCase) => pascal_to_separated_case('-', name),
            Some(RenameRule::ScreamingKebabCase) => {
                let separated = pascal_to_separated_case('-', name);
                str_to_ascii_uppercase(separated.as_str())
            },
            None => String::from_str(name),
        }
    }
}

} // verus!
