//! Front-matter extraction: a document is split into a metadata block and a
//! body, and the metadata is validated. `title` and `titleSlug` are required
//! string fields; `date` and `description` are optional, and a value that is
//! not a YAML string counts as absent.

use vstd::prelude::*;

use crate::BuildError;
use crate::RequiredField;

verus! {

#[verifier::external_type_specification]
#[verifier::external_body]
pub struct ExYaml(yaml_rust::Yaml);

/// What a parsed front-matter value holds, read as a string-keyed mapping:
/// `None` when the value is not a YAML mapping; otherwise each string key
/// goes to `Some(text)` when its value is a YAML string and to `None` when it
/// is some other kind of value. Keys that are not YAML strings are left out.
pub uninterp spec fn yaml_view(y: yaml_rust::Yaml) -> Option<Map<Seq<char>, Option<Seq<char>>>>;

/// How a document splits at its front-matter fences: `Err` when the metadata
/// block between the fences is not well-formed YAML; otherwise the metadata
/// (`None` when the document has no front-matter block, else the block's
/// value read as in `yaml_view`) together with the body that follows the
/// block.
pub uninterp spec fn fm_split_of(raw: Seq<char>) -> Result<
    (Option<Option<Map<Seq<char>, Option<Seq<char>>>>>, Seq<char>),
    (),
>;

/// The least index at or after `i` where a front-matter fence (a `---` line)
/// stands in the text, if one does.
pub open spec fn first_fence_from(raw: Seq<char>, i: int) -> Option<int>
    decreases raw.len() - i,
{
    if i < 0 || i + 4 > raw.len() {
        None
    } else if raw.subrange(i, i + 4) == "---\n"@ {
        Some(i)
    } else {
        first_fence_from(raw, i + 1)
    }
}

/// How a document splits at its fences, before any YAML parsing: when the
/// text opens with a fence and a second fence follows, the block between the
/// fences and the text after the second fence; otherwise no block, and the
/// whole text as the body.
pub open spec fn split_spec(raw: Seq<char>) -> (Option<Seq<char>>, Seq<char>) {
    if raw.len() >= 4 && raw.subrange(0, 4) == "---\n"@ {
        match first_fence_from(raw, 4) {
            Some(f) => (Some(raw.subrange(4, f)), raw.skip(f + 4)),
            None => (None, raw),
        }
    } else {
        (None, raw)
    }
}

/// Whether the metadata block of a document scans as YAML (a document without
/// a front-matter block scans trivially).
pub open spec fn scan_ok(raw: Seq<char>) -> bool {
    fm_split_of(raw) is Ok
}

/// The body of a document: what remains after the front-matter block, or the
/// whole document when it has no such block.
pub open spec fn body_of(raw: Seq<char>) -> Seq<char> {
    fm_split_of(raw)->Ok_0.1
}

/// The metadata mapping of a document, flattened: `None` when the document
/// has no front-matter block or the block is not a mapping.
pub open spec fn meta_of(raw: Seq<char>) -> Option<Map<Seq<char>, Option<Seq<char>>>> {
    match fm_split_of(raw) {
        Ok(pair) => match pair.0 {
            Some(block) => block,
            None => None,
        },
        Err(_) => None,
    }
}

/// The string value a metadata mapping holds under a key: `None` when the
/// mapping is absent, the key is absent, or the value is not a string.
pub open spec fn str_field(
    m: Option<Map<Seq<char>, Option<Seq<char>>>>,
    key: Seq<char>,
) -> Option<Seq<char>> {
    match m {
        Some(mm) => if mm.contains_key(key) && mm[key] is Some {
            mm[key]
        } else {
            None
        },
        None => None,
    }
}

/// The `title` field of a document's metadata.
pub open spec fn title_of(raw: Seq<char>) -> Option<Seq<char>> {
    str_field(meta_of(raw), "title"@)
}

/// The `titleSlug` field of a document's metadata.
pub open spec fn slug_of(raw: Seq<char>) -> Option<Seq<char>> {
    str_field(meta_of(raw), "titleSlug"@)
}

/// The optional `date` field of a document's metadata.
pub open spec fn date_of(raw: Seq<char>) -> Option<Seq<char>> {
    str_field(meta_of(raw), "date"@)
}

/// The optional `description` field of a document's metadata.
pub open spec fn description_of(raw: Seq<char>) -> Option<Seq<char>> {
    str_field(meta_of(raw), "description"@)
}

/// Whether a document parses: its metadata block scans and holds string
/// values for both required fields.
pub open spec fn parse_ok(raw: Seq<char>) -> bool {
    scan_ok(raw) && title_of(raw) is Some && slug_of(raw) is Some
}

/// Relies on `frontmatter::parse_and_find_content`: it splits a document at
/// its leading front-matter fences exactly as `split_spec` says (the fences
/// are ASCII, so byte positions and character positions agree), parses the
/// block between them as YAML, and hands back the parsed metadata together
/// with the body that follows the closing fence. A document without both
/// fences comes back whole, with no metadata and no chance of a scan error;
/// a fenced block whose YAML is empty also yields no metadata.
#[verifier::external_body]
fn split_front_matter(raw: &str) -> (r: Result<(Option<yaml_rust::Yaml>, String), ()>)
    ensures
        match r {
            Ok(pair) => {
                &&& fm_split_of(raw@) is Ok
                &&& fm_split_of(raw@)->Ok_0.1 == pair.1@
                &&& pair.1@ == split_spec(raw@).1
                &&& match pair.0 {
                    Some(y) => fm_split_of(raw@)->Ok_0.0 == Some(yaml_view(y)) && split_spec(
                        raw@,
                    ).0 is Some,
                    None => fm_split_of(raw@)->Ok_0.0 is None,
                }
            },
            Err(_) => fm_split_of(raw@) is Err && split_spec(raw@).0 is Some,
        },
{
    match frontmatter::parse_and_find_content(raw) {
        Ok((meta, body)) => Ok((meta, body.to_string())),
        Err(_) => Err(()),
    }
}

/// Relies on yaml_rust's `Yaml::as_hash`, `Hash::get` and `Yaml::as_str`:
/// looks the key up in the metadata mapping and hands its value back when
/// that value is a YAML string.
#[verifier::external_body]
pub fn get_info_value(key: String, value: &yaml_rust::Yaml) -> (r: Option<String>)
    ensures
        match yaml_view(*value) {
            Some(m) => {
                let field = if m.contains_key(key@) {
                    m[key@]
                } else {
                    None
                };
                match r {
                    Some(s) => field == Some(s@),
                    None => field is None,
                }
            },
            None => r is None,
        },
{
    let found = value.as_hash().and_then(|h| h.get(&yaml_rust::Yaml::String(key)));
    match found {
        Some(v) => v.as_str().map(|s| s.to_string()),
        None => None,
    }
}

/// The metadata a document carries: the required `title` and `titleSlug`
/// fields and the optional `date` and `description` fields.
pub struct BlogInformation {
    pub title: String,
    pub title_slug: String,
    pub date: Option<String>,
    pub description: Option<String>,
}

/// Validates a parsed metadata block: `title` and `titleSlug` must be present
/// as strings, `date` and `description` are taken when present. A document
/// whose block is absent, is not a mapping, or lacks a required field is
/// refused with `MissingRequiredField`.
pub fn render_blog_info(info_block: Option<&yaml_rust::Yaml>) -> (r: Result<
    BlogInformation,
    BuildError,
>)
    ensures
        ({
            let m = match info_block {
                Some(y) => yaml_view(*y),
                None => None,
            };
            match r {
                Ok(info) => {
                    &&& str_field(m, "title"@) == Some(info.title@)
                    &&& str_field(m, "titleSlug"@) == Some(info.title_slug@)
                    &&& match info.date {
                        Some(d) => str_field(m, "date"@) == Some(d@),
                        None => str_field(m, "date"@) is None,
                    }
                    &&& match info.description {
                        Some(d) => str_field(m, "description"@) == Some(d@),
                        None => str_field(m, "description"@) is None,
                    }
                },
                Err(BuildError::MissingRequiredField(RequiredField::Title)) => str_field(
                    m,
                    "title"@,
                ) is None,
                Err(BuildError::MissingRequiredField(RequiredField::TitleSlug)) => str_field(
                    m,
                    "title"@,
                ) is Some && str_field(m, "titleSlug"@) is None,
                Err(_) => false,
            }
        }),
{
    match info_block {
        None => Err(BuildError::MissingRequiredField(RequiredField::Title)),
        Some(y) => {
            let title = get_info_value("title".to_owned(), y);
            let title_slug = get_info_value("titleSlug".to_owned(), y);
            let date = get_info_value("date".to_owned(), y);
            let description = get_info_value("description".to_owned(), y);
            match title {
                None => Err(BuildError::MissingRequiredField(RequiredField::Title)),
                Some(title) => match title_slug {
                    None => Err(BuildError::MissingRequiredField(RequiredField::TitleSlug)),
                    Some(title_slug) => Ok(
                        BlogInformation { title, title_slug, date, description },
                    ),
                },
            }
        },
    }
}

/// Splits a raw document into its metadata and its body and validates the
/// metadata. Succeeds exactly when the metadata block scans as YAML and holds
/// string values for `title` and `titleSlug`; the body is what remains after
/// the metadata block.
pub fn parse(raw: &str) -> (r: Result<(BlogInformation, String), BuildError>)
    ensures
        r is Ok <==> parse_ok(raw@),
        split_spec(raw@).0 is None ==> r matches Err(
            BuildError::MissingRequiredField(RequiredField::Title),
        ),
        match r {
            Ok(pair) => {
                &&& title_of(raw@) == Some(pair.0.title@)
                &&& slug_of(raw@) == Some(pair.0.title_slug@)
                &&& match pair.0.date {
                    Some(d) => date_of(raw@) == Some(d@),
                    None => date_of(raw@) is None,
                }
                &&& match pair.0.description {
                    Some(d) => description_of(raw@) == Some(d@),
                    None => description_of(raw@) is None,
                }
                &&& pair.1@ == body_of(raw@)
                &&& pair.1@ == split_spec(raw@).1
            },
            Err(e) => match e {
                BuildError::FrontMatterSyntaxError => !scan_ok(raw@),
                BuildError::MissingRequiredField(RequiredField::Title) => scan_ok(raw@)
                    && title_of(raw@) is None,
                BuildError::MissingRequiredField(RequiredField::TitleSlug) => scan_ok(raw@)
                    && title_of(raw@) is Some && slug_of(raw@) is None,
                _ => false,
            },
        },
{
    match split_front_matter(raw) {
        Err(_) => Err(BuildError::FrontMatterSyntaxError),
        Ok((meta, body)) => match meta {
            Some(y) => match render_blog_info(Some(&y)) {
                Ok(info) => Ok((info, body)),
                Err(e) => Err(e),
            },
            None => match render_blog_info(None) {
                Ok(info) => Ok((info, body)),
                Err(e) => Err(e),
            },
        },
    }
}

} // verus!
