//! The note loader: a note file's text is split on the structural
//! delimiter `---`, the block between the first two occurrences is parsed
//! as front matter, and everything after the second occurrence becomes the
//! body.

use vstd::prelude::*;

verus! {

use crate::metadata::Metadata;
use crate::metadata::MetadataView;
use crate::metadata::parse_metadata;
use crate::metadata::spec_parse_metadata;
use crate::text::join_from;
use crate::text::spec_split;
use crate::text::split_note_text;

/// One source note under consideration for publishing.
#[derive(Debug)]
pub struct Page {
    pub metadata: Metadata,
    pub content: String,
    pub filename: String,
}

/// The mathematical content of a `Page`.
#[verifier::ext_equal]
pub ghost struct PageView {
    pub metadata: MetadataView,
    pub content: Seq<char>,
    pub filename: Seq<char>,
}

impl View for Page {
    type V = PageView;

    open spec fn view(&self) -> PageView {
        PageView {
            metadata: self.metadata@,
            content: self.content@,
            filename: self.filename@,
        }
    }
}

impl Page {
    /// Assembles a page from its parts.
    pub fn new(metadata: Metadata, content: String, filename: String) -> (r: Page)
        ensures
            r@.metadata == metadata@,
            r@.content == content@,
            r@.filename == filename@,
    {
        Page { metadata, content, filename }
    }
}

/// Why a note file could not be turned into a `Page`.
#[derive(Clone, Copy, Debug, PartialEq, Eq, Structural)]
pub enum ParseError {
    /// The structural delimiter appears fewer than two times in the file.
    MalformedNote,
    /// The front matter matches neither supported schema.
    MetadataParseFailure,
}

/// The page that a note file denotes: the segment between the first and
/// second delimiter parsed as front matter, the segments after the second
/// delimiter joined with no separator as the body.
pub open spec fn spec_parse_file(raw: Seq<char>, filename: Seq<char>) -> Result<
    PageView,
    ParseError,
> {
    let segs = spec_split(raw);
    if segs.len() < 3 {
        Err(ParseError::MalformedNote)
    } else {
        match spec_parse_metadata(segs[1]) {
            Some(m) => Ok(PageView { metadata: m, content: join_from(segs, 2), filename }),
            None => Err(ParseError::MetadataParseFailure),
        }
    }
}

pub open spec fn view_page_result(r: Result<Page, ParseError>) -> Result<PageView, ParseError> {
    match r {
        Ok(p) => Ok(p@),
        Err(e) => Err(e),
    }
}

/// Splits a note file's text on the structural delimiter and parses the
/// front-matter block, producing a page. Each failure carries its kind:
/// too few delimiters, or front matter of neither supported schema.
pub fn parse_file(content: String, filename: String) -> (r: Result<Page, ParseError>)
    ensures
        view_page_result(r) == spec_parse_file(content@, filename@),
{
    match split_note_text(content.as_str()) {
        None => Err(ParseError::MalformedNote),
        Some((front, body)) => match parse_metadata(front.as_str()) {
            Some(m) => {
                let p = Page::new(m, body, filename);
                proof {
                    assert(view_page_result(Ok(p)) =~~= spec_parse_file(content@, p.filename@));
                }
                Ok(p)
            },
            None => Err(ParseError::MetadataParseFailure),
        },
    }
}

} // verus!
