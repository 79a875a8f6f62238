//! The front-matter record of a note, and its parser. The parser reads a
//! YAML block through the boundary in `yaml` and normalizes the one field
//! whose on-disk shape varies: `aliases` may be a single string or a list
//! of strings, and always comes out as one string.

use vstd::prelude::*;

verus! {

use crate::yaml::yaml_bool_of;
use crate::yaml::yaml_doc_of;
use crate::yaml::yaml_entry_of;
use crate::yaml::yaml_is_mapping;
use crate::yaml::yaml_is_null;
use crate::yaml::yaml_seq_of;
use crate::yaml::yaml_str_of;
use crate::yaml::get_entry;
use crate::yaml::parse_yaml_document;
use crate::yaml::value_as_bool;
use crate::yaml::value_as_sequence;
use crate::yaml::value_as_str;
use crate::yaml::value_is_mapping;
use crate::yaml::value_is_null;

/// The structured front matter of a note, with `aliases` already
/// normalized to a single string.
#[derive(Debug)]
pub struct Metadata {
    pub id: Option<String>,
    pub aliases: String,
    pub title: Option<String>,
    pub tags: Option<Vec<String>>,
    pub created_at: Option<String>,
    pub updated_at: Option<String>,
    pub dg: Option<bool>,
    pub published: Option<bool>,
    pub dg_path: Option<String>,
}

/// The mathematical content of a `Metadata` record.
#[verifier::ext_equal]
pub ghost struct MetadataView {
    pub id: Option<Seq<char>>,
    pub aliases: Seq<char>,
    pub title: Option<Seq<char>>,
    pub tags: Option<Seq<Seq<char>>>,
    pub created_at: Option<Seq<char>>,
    pub updated_at: Option<Seq<char>>,
    pub dg: Option<bool>,
    pub published: Option<bool>,
    pub dg_path: Option<Seq<char>>,
}

pub open spec fn view_opt_string(o: Option<String>) -> Option<Seq<char>> {
    match o {
        Some(s) => Some(s@),
        None => None,
    }
}

pub open spec fn view_opt_strings(o: Option<Vec<String>>) -> Option<Seq<Seq<char>>> {
    match o {
        Some(v) => Some(v@.map_values(|s: String| s@)),
        None => None,
    }
}

impl View for Metadata {
    type V = MetadataView;

    open spec fn view(&self) -> MetadataView {
        MetadataView {
            id: view_opt_string(self.id),
            aliases: self.aliases@,
            title: view_opt_string(self.title),
            tags: view_opt_strings(self.tags),
            created_at: view_opt_string(self.created_at),
            updated_at: view_opt_string(self.updated_at),
            dg: self.dg,
            published: self.published,
            dg_path: view_opt_string(self.dg_path),
        }
    }
}

/// The two historical shapes of the `aliases` field, before normalization.
pub ghost enum AliasesShape {
    Absent,
    Single(Seq<char>),
    Listed(Seq<Seq<char>>),
}

/// Whether every element of a YAML sequence is a string.
pub open spec fn all_strings(vs: Seq<serde_yaml::Value>) -> bool {
    forall|i: int| 0 <= i < vs.len() ==> (#[trigger] yaml_str_of(vs[i])) is Some
}

/// The characters of each element of a YAML sequence of strings.
pub open spec fn strings_of(vs: Seq<serde_yaml::Value>) -> Seq<Seq<char>> {
    vs.map_values(|v: serde_yaml::Value| yaml_str_of(v)->0)
}

/// An optional string field of the document: `Some(None)` where the key is
/// absent or null, `Some(Some(..))` where it holds a string, and `None` —
/// a parse failure — where it holds anything else.
pub open spec fn spec_str_field(doc: serde_yaml::Value, key: Seq<char>) -> Option<
    Option<Seq<char>>,
> {
    match yaml_entry_of(doc, key) {
        None => Some(None),
        Some(v) => if yaml_is_null(v) {
            Some(None)
        } else {
            match yaml_str_of(v) {
                Some(s) => Some(Some(s)),
                None => None,
            }
        },
    }
}

/// An optional boolean field of the document, on the same pattern.
pub open spec fn spec_bool_field(doc: serde_yaml::Value, key: Seq<char>) -> Option<Option<bool>> {
    match yaml_entry_of(doc, key) {
        None => Some(None),
        Some(v) => if yaml_is_null(v) {
            Some(None)
        } else {
            match yaml_bool_of(v) {
                Some(b) => Some(Some(b)),
                None => None,
            }
        },
    }
}

/// An optional list-of-strings field of the document, on the same pattern.
pub open spec fn spec_tags_field(doc: serde_yaml::Value, key: Seq<char>) -> Option<
    Option<Seq<Seq<char>>>,
> {
    match yaml_entry_of(doc, key) {
        None => Some(None),
        Some(v) => if yaml_is_null(v) {
            Some(None)
        } else {
            match yaml_seq_of(v) {
                Some(vs) => if all_strings(vs) {
                    Some(Some(strings_of(vs)))
                } else {
                    None
                },
                None => None,
            }
        },
    }
}

/// The shape in which the document gives `aliases`: the single-string
/// shape is recognized first, the list shape second, and any other value
/// is a parse failure (`None`).
pub open spec fn spec_aliases_shape(doc: serde_yaml::Value) -> Option<AliasesShape> {
    match yaml_entry_of(doc, "aliases"@) {
        None => Some(AliasesShape::Absent),
        Some(v) => if yaml_is_null(v) {
            Some(AliasesShape::Absent)
        } else {
            match yaml_str_of(v) {
                Some(s) => Some(AliasesShape::Single(s)),
                None => match yaml_seq_of(v) {
                    Some(vs) => if all_strings(vs) {
                        Some(AliasesShape::Listed(strings_of(vs)))
                    } else {
                        None
                    },
                    None => None,
                },
            }
        },
    }
}

/// The single string that either shape of `aliases` collapses to: the
/// string itself, the first element of a non-empty list, and the empty
/// string for an empty list or an absent field.
pub open spec fn spec_normalize_aliases(sh: AliasesShape) -> Seq<char> {
    match sh {
        AliasesShape::Absent => Seq::empty(),
        AliasesShape::Single(s) => s,
        AliasesShape::Listed(l) => if l.len() > 0 {
            l[0]
        } else {
            Seq::empty()
        },
    }
}

/// The shape of `aliases` in a raw front-matter block: `None` where the
/// block is not a YAML mapping or the field has an unusable value.
pub open spec fn spec_block_aliases_shape(block: Seq<char>) -> Option<AliasesShape> {
    match yaml_doc_of(block) {
        Some(doc) => if yaml_is_mapping(doc) {
            spec_aliases_shape(doc)
        } else {
            None
        },
        None => None,
    }
}

/// The record that a front-matter block denotes: `None` where the block is
/// not a YAML mapping or some field matches neither supported shape.
pub open spec fn spec_parse_metadata(block: Seq<char>) -> Option<MetadataView> {
    match yaml_doc_of(block) {
        None => None,
        Some(doc) => if !yaml_is_mapping(doc) {
            None
        } else if spec_str_field(doc, "id"@) is None || spec_aliases_shape(doc) is None
            || spec_str_field(doc, "title"@) is None || spec_tags_field(doc, "tags"@) is None
            || spec_str_field(doc, "createdAt"@) is None || spec_str_field(
            doc,
            "updatedAt"@,
        ) is None || spec_bool_field(doc, "dg"@) is None || spec_bool_field(
            doc,
            "published"@,
        ) is None || spec_str_field(doc, "dg_path"@) is None {
            None
        } else {
            Some(
                MetadataView {
                    id: spec_str_field(doc, "id"@)->0,
                    aliases: spec_normalize_aliases(spec_aliases_shape(doc)->0),
                    title: spec_str_field(doc, "title"@)->0,
                    tags: spec_tags_field(doc, "tags"@)->0,
                    created_at: spec_str_field(doc, "createdAt"@)->0,
                    updated_at: spec_str_field(doc, "updatedAt"@)->0,
                    dg: spec_bool_field(doc, "dg"@)->0,
                    published: spec_bool_field(doc, "published"@)->0,
                    dg_path: spec_str_field(doc, "dg_path"@)->0,
                },
            )
        },
    }
}

/// Reads an optional string field of the document.
fn get_str_field(doc: &serde_yaml::Value, key: &str) -> (r: Option<Option<String>>)
    ensures
        r is Some <==> spec_str_field(*doc, key@) is Some,
        r matches Some(o) ==> Some(view_opt_string(o)) == spec_str_field(*doc, key@),
{
    match get_entry(doc, key) {
        None => Some(None),
        Some(v) => {
            if value_is_null(&v) {
                Some(None)
            } else {
                match value_as_str(&v) {
                    Some(s) => Some(Some(s)),
                    None => None,
                }
            }
        },
    }
}

/// Reads an optional boolean field of the document.
fn get_bool_field(doc: &serde_yaml::Value, key: &str) -> (r: Option<Option<bool>>)
    ensures
        r is Some <==> spec_bool_field(*doc, key@) is Some,
        r matches Some(o) ==> Some(o) == spec_bool_field(*doc, key@),
{
    match get_entry(doc, key) {
        None => Some(None),
        Some(v) => {
            if value_is_null(&v) {
                Some(None)
            } else {
                match value_as_bool(&v) {
                    Some(b) => Some(Some(b)),
                    None => None,
                }
            }
        },
    }
}

/// The elements of a YAML sequence as strings, or `None` where one of them
/// is not a string.
fn seq_as_strings(vs: &Vec<serde_yaml::Value>) -> (r: Option<Vec<String>>)
    ensures
        r is Some <==> all_strings(vs@),
        r matches Some(out) ==> out@.map_values(|s: String| s@) == strings_of(vs@),
{
    let mut out: Vec<String> = Vec::new();
    let mut i: usize = 0;
    while i < vs.len()
        invariant
            0 <= i <= vs@.len(),
            out@.len() == i,
            forall|j: int| 0 <= j < i ==> (#[trigger] yaml_str_of(vs@[j])) is Some,
            forall|j: int| 0 <= j < i ==> (#[trigger] out@[j])@ == yaml_str_of(vs@[j])->0,
        decreases vs@.len() - i,
    {
        match value_as_str(&vs[i]) {
            Some(s) => out.push(s),
            None => {
                return None;
            },
        }
        i = i + 1;
    }
    proof {
        assert(out@.map_values(|s: String| s@) =~= strings_of(vs@));
    }
    Some(out)
}

/// Reads an optional list-of-strings field of the document.
fn get_tags_field(doc: &serde_yaml::Value, key: &str) -> (r: Option<Option<Vec<String>>>)
    ensures
        r is Some <==> spec_tags_field(*doc, key@) is Some,
        r matches Some(o) ==> Some(view_opt_strings(o)) == spec_tags_field(*doc, key@),
{
    match get_entry(doc, key) {
        None => Some(None),
        Some(v) => {
            if value_is_null(&v) {
                Some(None)
            } else {
                match value_as_sequence(&v) {
                    Some(vs) => match seq_as_strings(&vs) {
                        Some(out) => Some(Some(out)),
                        None => None,
                    },
                    None => None,
                }
            }
        },
    }
}

/// Reads `aliases` in either of its two shapes — the single-string shape
/// first, the list shape second — and normalizes it to one string.
fn get_aliases_field(doc: &serde_yaml::Value) -> (r: Option<String>)
    ensures
        r is Some <==> spec_aliases_shape(*doc) is Some,
        r matches Some(s) ==> s@ == spec_normalize_aliases(spec_aliases_shape(*doc)->0),
{
    match get_entry(doc, "aliases") {
        None => Some(String::new()),
        Some(v) => {
            if value_is_null(&v) {
                Some(String::new())
            } else {
                match value_as_str(&v) {
                    Some(s) => Some(s),
                    None => match value_as_sequence(&v) {
                        Some(vs) => match seq_as_strings(&vs) {
                            Some(out) => {
                                if out.len() > 0 {
                                    let first = out[0].clone();
                                    proof {
                                        assert(out@.map_values(|s: String| s@)[0] == out@[0]@);
                                    }
                                    Some(first)
                                } else {
                                    proof {
                                        assert(strings_of(vs@).len() == vs@.len());
                                    }
                                    Some(String::new())
                                }
                            },
                            None => None,
                        },
                        None => None,
                    },
                }
            }
        },
    }
}

/// Parses a raw front-matter block into a normalized record. `None` is the
/// parse failure: the block matches neither supported schema.
pub fn parse_metadata(block: &str) -> (r: Option<Metadata>)
    ensures
        r is Some <==> spec_parse_metadata(block@) is Some,
        r matches Some(m) ==> Some(m@) == spec_parse_metadata(block@),
{
    let doc = match parse_yaml_document(block) {
        Some(d) => d,
        None => {
            return None;
        },
    };
    if !value_is_mapping(&doc) {
        return None;
    }
    let id = match get_str_field(&doc, "id") {
        Some(o) => o,
        None => {
            return None;
        },
    };
    let aliases = match get_aliases_field(&doc) {
        Some(s) => s,
        None => {
            return None;
        },
    };
    let title = match get_str_field(&doc, "title") {
        Some(o) => o,
        None => {
            return None;
        },
    };
    let tags = match get_tags_field(&doc, "tags") {
        Some(o) => o,
        None => {
            return None;
        },
    };
    let created_at = match get_str_field(&doc, "createdAt") {
        Some(o) => o,
        None => {
            return None;
        },
    };
    let updated_at = match get_str_field(&doc, "updatedAt") {
        Some(o) => o,
        None => {
            return None;
        },
    };
    let dg = match get_bool_field(&doc, "dg") {
        Some(o) => o,
        None => {
            return None;
        },
    };
    let published = match get_bool_field(&doc, "published") {
        Some(o) => o,
        None => {
            return None;
        },
    };
    let dg_path = match get_str_field(&doc, "dg_path") {
        Some(o) => o,
        None => {
            return None;
        },
    };
    let m = Metadata { id, aliases, title, tags, created_at, updated_at, dg, published, dg_path };
    proof {
        assert(Some(m@) =~~= spec_parse_metadata(block@));
    }
    Some(m)
}

/// Where `aliases` is given as a single string, normalization passes it
/// through: the parsed record holds that very string.
pub proof fn lemma_aliases_single_passthrough(block: Seq<char>, s: Seq<char>)
    requires
        spec_parse_metadata(block) is Some,
        spec_block_aliases_shape(block) == Some(AliasesShape::Single(s)),
    ensures
        spec_parse_metadata(block)->0.aliases == s,
{
}

/// Where `aliases` is given as a non-empty list of strings, the parsed
/// record holds the list's first element.
pub proof fn lemma_aliases_first_of_list(block: Seq<char>, l: Seq<Seq<char>>)
    requires
        spec_parse_metadata(block) is Some,
        spec_block_aliases_shape(block) == Some(AliasesShape::Listed(l)),
        l.len() > 0,
    ensures
        spec_parse_metadata(block)->0.aliases == l[0],
{
}

/// Where `aliases` is given as an empty list or not at all, the parsed
/// record holds the empty string.
pub proof fn lemma_aliases_empty_or_absent(block: Seq<char>)
    requires
        spec_parse_metadata(block) is Some,
        spec_block_aliases_shape(block) == Some(AliasesShape::Absent)
            || spec_block_aliases_shape(block) == Some(
            AliasesShape::Listed(Seq::<Seq<char>>::empty()),
        ),
    ensures
        spec_parse_metadata(block)->0.aliases == Seq::<char>::empty(),
{
}

} // verus!
