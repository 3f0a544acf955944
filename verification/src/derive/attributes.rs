//! The `serde` attributes that the derive macro understands: `rename`,
//! `rename_all`, `tag` and `content`.
//!
//! Of the attributes of an item, the first outer `serde` attribute with a
//! list counts. Of the entries of that list, the first of each key counts.
use vstd::prelude::*;
use crate::derive::ast::{
    rule_of_name, RenameRule, SerdeContainerAttributes, SerdeVariantAttributes,
};
use crate::derive::error::{DeriveError, ErrorKind};
use crate::derive::input;
use crate::derive::read::{collect, error_at, lemma_collect_error, lemma_collect_next};
use crate::text::str_eq;

verus! {

/// A `serde` attribute that the macro understands.
#[derive(Debug, Clone, PartialEq)]
pub enum SerdeAttribute {
    /// `rename = ".."`, with the rule that the value names.
    Rename(RenameRule),
    /// `rename_all = ".."`, with the rule that the value names.
    RenameAll(RenameRule),
    /// `tag = ".."`, with the value.
    Tag(String),
    /// `content = ".."`, with the value.
    Content(String),
}

/// The list of the `serde` attribute of an item.
#[derive(Debug)]
pub struct SerdeAttributeList(pub input::MetaList);

/// What an entry of the list means: an attribute, nothing where the key is
/// not understood, or an error where `rename` or `rename_all` does not name
/// a rename rule.
pub open spec fn read_entry(entry: input::MetaEntry) -> Result<Option<SerdeAttribute>, DeriveError> {
    match entry.key {
        None => Ok(None),
        Some(key) => {
            if key@ == "rename_all"@ {
                match rule_of_name(entry.value@) {
                    Some(rule) => Ok(Some(SerdeAttribute::RenameAll(rule))),
                    None => Err(error_at(ErrorKind::InvalidRenameRule, entry.span)),
                }
            } else if key@ == "rename"@ {
                match rule_of_name(entry.value@) {
                    Some(rule) => Ok(Some(SerdeAttribute::Rename(rule))),
                    None => Err(error_at(ErrorKind::InvalidRenameRule, entry.span)),
                }
            } else if key@ == "tag"@ {
                Ok(Some(SerdeAttribute::Tag(entry.value)))
            } else if key@ == "content"@ {
                Ok(Some(SerdeAttribute::Content(entry.value)))
            } else {
                Ok(None)
            }
        },
    }
}

/// What each entry of a list means.
pub open spec fn read_each_entry(entries: Seq<input::MetaEntry>) -> Seq<
    Result<Option<SerdeAttribute>, DeriveError>,
> {
    Seq::new(entries.len(), |i: int| read_entry(entries[i]))
}

/// The values that are present, in order.
pub open spec fn present<T>(items: Seq<Option<T>>) -> Seq<T>
    decreases items.len(),
{
    if items.len() == 0 {
        Seq::empty()
    } else {
        match items.last() {
            Some(item) => present(items.drop_last()).push(item),
            None => present(items.drop_last()),
        }
    }
}

/// The attributes that the entries of a list mean, or the first error
/// among them.
pub open spec fn read_entries(entries: Seq<input::MetaEntry>) -> Result<
    Seq<SerdeAttribute>,
    DeriveError,
> {
    match collect(read_each_entry(entries)) {
        Ok(attributes) => Ok(present(attributes)),
        Err(e) => Err(e),
    }
}

/// The rule of the first `rename` attribute.
pub open spec fn first_rename(attributes: Seq<SerdeAttribute>) -> Option<RenameRule>
    decreases attributes.len(),
{
    if attributes.len() == 0 {
        None
    } else {
        match attributes.first() {
            SerdeAttribute::Rename(rule) => Some(rule),
            _ => first_rename(attributes.drop_first()),
        }
    }
}

/// The rule of the first `rename_all` attribute.
pub open spec fn first_rename_all(attributes: Seq<SerdeAttribute>) -> Option<RenameRule>
    decreases attributes.len(),
{
    if attributes.len() == 0 {
        None
    } else {
        match attributes.first() {
            SerdeAttribute::RenameAll(rule) => Some(rule),
            _ => first_rename_all(attributes.drop_first()),
        }
    }
}

/// The value of the first `tag` attribute.
pub open spec fn first_tag(attributes: Seq<SerdeAttribute>) -> Option<String>
    decreases attributes.len(),
{
    if attributes.len() == 0 {
        None
    } else {
        match attributes.first() {
            SerdeAttribute::Tag(value) => Some(value),
            _ => first_tag(attributes.drop_first()),
        }
    }
}

/// The value of the first `content` attribute.
pub open spec fn first_content(attributes: Seq<SerdeAttribute>) -> Option<String>
    decreases attributes.len(),
{
    if attributes.len() == 0 {
        None
    } else {
        match attributes.first() {
            SerdeAttribute::Content(value) => Some(value),
            _ => first_content(attributes.drop_first()),
        }
    }
}

/// The attributes of a container: the first of each kind.
pub open spec fn container_attributes(attributes: Seq<SerdeAttribute>) -> SerdeContainerAttributes {
    SerdeContainerAttributes {
        rename_all: first_rename_all(attributes),
        rename: first_rename(attributes),
        tag: first_tag(attributes),
        content: first_content(attributes),
    }
}

/// The attributes of a variant: the first `rename` and the first
/// `rename_all`.
pub open spec fn variant_attributes(attributes: Seq<SerdeAttribute>) -> SerdeVariantAttributes {
    SerdeVariantAttributes {
        rename: first_rename(attributes),
        rename_all: first_rename_all(attributes),
    }
}

/// Whether an attribute is an outer `serde` attribute with a list.
pub open spec fn is_serde_list(attribute: input::Attribute) -> bool {
    attribute.outer && attribute.serde && attribute.meta is List
}

/// The list of the first outer `serde` attribute that has one.
pub open spec fn first_serde_list(attributes: Seq<input::Attribute>) -> Option<input::MetaList>
    decreases attributes.len(),
{
    if attributes.len() == 0 {
        None
    } else if is_serde_list(attributes.first()) {
        Some(attributes.first().meta->List_0)
    } else {
        first_serde_list(attributes.drop_first())
    }
}

/// Calls `syn::Error::new`, which makes an error with the given message at
/// the given place.
#[verifier::external_body]
fn syn_error(span: proc_macro2::Span, message: &str) -> (error: syn::Error) {
    syn::Error::new(span, message)
}

impl SerdeAttribute {
    /// What an entry `key = "value"` means: see [`read_entry`].
    pub fn from_pair(entry: input::MetaEntry) -> (r: Result<Option<Self>, DeriveError>)
        ensures
            r == read_entry(entry),
    {
        let input::MetaEntry { key, value, span } = entry;
        match key {
            None => Ok(None),
            Some(key) => {
                if str_eq(key.as_str(), "rename_all") {
                    match RenameRule::from_string(value) {
                        Some(rule) => Ok(Some(SerdeAttribute::RenameAll(rule))),
                        None => Err(DeriveError { kind: ErrorKind::InvalidRenameRule, span }),
                    }
                } else if str_eq(key.as_str(), "rename") {
                    match RenameRule::from_string(value) {
                        Some(rule) => Ok(Some(SerdeAttribute::Rename(rule))),
                        None => Err(DeriveError { kind: ErrorKind::InvalidRenameRule, span }),
                    }
                } else if str_eq(key.as_str(), "tag") {
                    Ok(Some(SerdeAttribute::Tag(value)))
                } else if str_eq(key.as_str(), "content") {
                    Ok(Some(SerdeAttribute::Content(value)))
                } else {
                    Ok(None)
                }
            },
        }
    }

    /// The rule of the first `rename` attribute.
    pub fn find_rename(attributes: &Vec<SerdeAttribute>) -> (rule: Option<RenameRule>)
        ensures
            rule == first_rename(attributes@),
    {
        let mut i: usize = 0;
        proof {
            assert(attributes@.skip(0) =~= attributes@);
        }
        while i < attributes.len()
            invariant
                i <= attributes.len(),
                first_rename(attributes@) == first_rename(attributes@.skip(i as int)),
            decreases attributes.len() - i,
        {
            proof {
                assert(attributes@.skip(i as int).drop_first() =~= attributes@.skip(i + 1));
            }
            if let SerdeAttribute::Rename(rule) = &attributes[i] {
                return Some(*rule);
            }
            i += 1;
        }
        None
    }

    /// The rule of the first `rename_all` attribute.
    pub fn find_rename_all(attributes: &Vec<SerdeAttribute>) -> (rule: Option<RenameRule>)
        ensures
            rule == first_rename_all(attributes@),
    {
        let mut i: usize = 0;
        proof {
            assert(attributes@.skip(0) =~= attributes@);
        }
        while i < attributes.len()
            invariant
                i <= attributes.len(),
                first_rename_all(attributes@) == first_rename_all(attributes@.skip(i as int)),
            decreases attributes.len() - i,
        {
            proof {
                assert(attributes@.skip(i as int).drop_first() =~= attributes@.skip(i + 1));
            }
            if let SerdeAttribute::RenameAll(rule) = &attributes[i] {
                return Some(*rule);
            }
            i += 1;
        }
        None
    }

    /// The value of the first `tag` attribute.
    pub fn find_tag(attributes: &Vec<SerdeAttribute>) -> (value: Option<String>)
        ensures
            value == first_tag(attributes@),
    {
        let mut i: usize = 0;
        proof {
            assert(attributes@.skip(0) =~= attributes@);
        }
        while i < attributes.len()
            invariant
                i <= attributes.len(),
                first_tag(attributes@) == first_tag(attributes@.skip(i as int)),
            decreases attributes.len() - i,
        {
            proof {
                assert(attributes@.skip(i as int).drop_first() =~= attributes@.skip(i + 1));
            }
            if let SerdeAttribute::Tag(value) = &attributes[i] {
                return Some(value.clone());
            }
            i += 1;
        }
        None
    }

    /// The value of the first `content` attribute.
    pub fn find_content(attributes: &Vec<SerdeAttribute>) -> (value: Option<String>)
        ensures
            value == first_content(attributes@),
    {
        let mut i: usize = 0;
        proof {
            assert(attributes@.skip(0) =~= attributes@);
        }
        while i < attributes.len()
            invariant
                i <= attributes.len(),
                first_content(attributes@) == first_content(attributes@.skip(i as int)),
            decreases attributes.len() - i,
        {
            proof {
                assert(attributes@.skip(i as int).drop_first() =~= attributes@.skip(i + 1));
            }
            if let SerdeAttribute::Content(value) = &attributes[i] {
                return Some(value.clone());
            }
            i += 1;
        }
        None
    }
}

impl SerdeAttributeList {
    /// The list of an attribute, where the attribute is an outer `serde`
    /// attribute with a list.
    pub fn from_attribute(attribute: input::Attribute) -> (list: Option<Self>)
        ensures
            list is Some <==> is_serde_list(attribute),
            list matches Some(list) ==> list.0 == attribute.meta->List_0,
    {
        if !attribute.outer || !attribute.serde {
            return None;
        }
        match attribute.meta {
            input::Meta::Path => None,
            input::Meta::List(list) => Some(SerdeAttributeList(list)),
            input::Meta::NameValue => None,
        }
    }

    /// The list of the first outer `serde` attribute that has one.
    #[verifier::loop_isolation(false)]
    pub fn find(attributes: Vec<input::Attribute>) -> (list: Option<Self>)
        ensures
            match list {
                Some(list) => first_serde_list(attributes@) == Some(list.0),
                None => first_serde_list(attributes@) is None,
            },
    {
        proof {
            assert(attributes@.skip(0) =~= attributes@);
        }
        for attribute in it: attributes
            invariant
                it.seq() == attributes@,
                first_serde_list(attributes@) == first_serde_list(
                    attributes@.skip(it.index() as int),
                ),
        {
            proof {
                assert(attributes@.skip(it.index() as int).drop_first() =~= attributes@.skip(
                    it.index() + 1,
                ));
            }
            if let Some(list) = SerdeAttributeList::from_attribute(attribute) {
                return Some(list);
            }
        }
        None
    }

    /// The attributes that the entries of the list mean: see
    /// [`read_entries`].
    ///
    /// An entry that names no rename rule gives an error of `syn` with the
    /// message of [`ErrorKind::InvalidRenameRule`]; else the error at which
    /// parsing stopped is handed on. Either error is placed at the list.
    #[verifier::loop_isolation(false)]
    pub fn into_attributes(self) -> (r: Result<Vec<SerdeAttribute>, DeriveError>)
        ensures
            match r {
                Ok(attributes) => {
                    &&& self.0.failure is None
                    &&& read_entries(self.0.entries@) == Ok::<Seq<SerdeAttribute>, DeriveError>(
                        attributes@,
                    )
                },
                Err(e) => {
                    &&& e.span == self.0.span
                    &&& e.kind is Syn
                    &&& match read_entries(self.0.entries@) {
                        Ok(_) => self.0.failure == Some(e.kind->Syn_0),
                        Err(invalid) => invalid.kind is InvalidRenameRule,
                    }
                },
            },
    {
        let SerdeAttributeList(list) = self;
        let input::MetaList { entries, failure, span } = list;
        let ghost results = read_each_entry(entries@);
        let ghost mut read: Seq<Option<SerdeAttribute>> = Seq::empty();
        let mut attributes: Vec<SerdeAttribute> = Vec::new();
        proof {
            assert(results.take(0) =~= Seq::empty());
        }
        for entry in it: entries
            invariant
                it.seq() == entries@,
                collect(results.take(it.index() as int)) == Ok::<
                    Seq<Option<SerdeAttribute>>,
                    DeriveError,
                >(read),
                attributes@ == present(read),
        {
            proof {
                lemma_collect_next(results, it.index() as int);
                assert(read.push(results[it.index() as int]->Ok_0).drop_last() =~= read);
            }
            match SerdeAttribute::from_pair(entry) {
                Ok(Some(attribute)) => {
                    attributes.push(attribute);
                    proof {
                        read = read.push(Some(attribute));
                    }
                },
                Ok(None) => {
                    proof {
                        read = read.push(None);
                    }
                },
                Err(invalid) => {
                    proof {
                        lemma_collect_error(results, it.index() + 1);
                    }
                    return Err(
                        DeriveError {
                            kind: ErrorKind::Syn(syn_error(invalid.span, invalid.kind.message())),
                            span,
                        },
                    );
                },
            }
        }
        proof {
            assert(results.take(results.len() as int) =~= results);
        }
        match failure {
            Some(error) => Err(DeriveError { kind: ErrorKind::Syn(error), span }),
            None => Ok(attributes),
        }
    }
}

impl SerdeContainerAttributes {
    /// The attributes of a container that a list holds: the first of each
    /// kind among [`read_entries`]. For the errors see
    /// [`SerdeAttributeList::into_attributes`].
    pub fn from_list(list: SerdeAttributeList) -> (r: Result<Self, DeriveError>)
        ensures
            match r {
                Ok(attributes) => {
                    &&& list.0.failure is None
                    &&& read_entries(list.0.entries@) matches Ok(read)
                    &&& attributes == container_attributes(read)
                },
                Err(e) => {
                    &&& e.span == list.0.span
                    &&& e.kind is Syn
                    &&& match read_entries(list.0.entries@) {
                        Ok(_) => list.0.failure == Some(e.kind->Syn_0),
                        Err(invalid) => invalid.kind is InvalidRenameRule,
                    }
                },
            },
    {
        match list.into_attributes() {
            Ok(rules) => Ok(
                SerdeContainerAttributes {
                    rename_all: SerdeAttribute::find_rename_all(&rules),
                    rename: SerdeAttribute::find_rename(&rules),
                    tag: SerdeAttribute::find_tag(&rules),
                    content: SerdeAttribute::find_content(&rules),
                },
            ),
            Err(e) => Err(e),
        }
    }
}

impl SerdeVariantAttributes {
    /// The attributes of a variant that a list holds: the first `rename` and
    /// the first `rename_all` among [`read_entries`]. For the errors see
    /// [`SerdeAttributeList::into_attributes`].
    pub fn from_list(list: SerdeAttributeList) -> (r: Result<Self, DeriveError>)
        ensures
            match r {
                Ok(attributes) => {
                    &&& list.0.failure is None
                    &&& read_entries(list.0.entries@) matches Ok(read)
                    &&& attributes == variant_attributes(read)
                },
                Err(e) => {
                    &&& e.span == list.0.span
                    &&& e.kind is Syn
                    &&& match read_entries(list.0.entries@) {
                        Ok(_) => list.0.failure == Some(e.kind->Syn_0),
                        Err(invalid) => invalid.kind is InvalidRenameRule,
                    }
                },
            },
    {
        match list.into_attributes() {
            Ok(rules) => Ok(
                SerdeVariantAttributes {
                    rename: SerdeAttribute::find_rename(&rules),
                    rename_all: SerdeAttribute::find_rename_all(&rules),
                },
            ),
            Err(e) => Err(e),
        }
    }
}

} // verus!
