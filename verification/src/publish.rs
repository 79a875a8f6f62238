//! The publish decision: whether a note qualifies for publishing,
//! whether its destination already holds the same content, and what, if
//! anything, is to be written. This module reads and writes no file; it
//! decides, and the surrounding program acts on the decision.

use vstd::prelude::*;

verus! {

use vstd::string::StrSliceExecFns;
use vstd::string::StringExecFns;
use crate::metadata::view_opt_string;
use crate::page::Page;
use crate::page::PageView;
use crate::text::is_ws;
use crate::text::lemma_trim_idempotent;
use crate::text::lemma_trim_pad;
use crate::text::spec_trim;
use crate::text::trim_str;

/// What reading the destination file yielded.
pub enum DestState {
    /// No destination file exists: the first-publish case.
    Missing,
    /// The destination file exists and holds this text.
    Existing(String),
    /// The destination file could not be read, for some reason other than
    /// not existing.
    Unreadable,
}

/// The mathematical content of a `DestState`.
#[verifier::ext_equal]
pub ghost enum DestStateView {
    Missing,
    Existing(Seq<char>),
    Unreadable,
}

impl View for DestState {
    type V = DestStateView;

    open spec fn view(&self) -> DestStateView {
        match self {
            DestState::Missing => DestStateView::Missing,
            DestState::Existing(s) => DestStateView::Existing(s@),
            DestState::Unreadable => DestStateView::Unreadable,
        }
    }
}

/// Whether two texts differ once both are trimmed of white space at their
/// edges.
pub open spec fn spec_has_file_diff(origin: Seq<char>, comparee: Seq<char>) -> bool {
    spec_trim(origin) != spec_trim(comparee)
}

/// Whether the note's text and the destination's differ, both taken
/// trimmed: equality after trimming means no difference.
pub fn has_file_diff(origin: &String, comparee: &String) -> (r: bool)
    ensures
        r == spec_has_file_diff(origin@, comparee@),
{
    let a = trim_str(origin.as_str());
    let b = trim_str(comparee.as_str());
    if a == b {
        return false;
    }
    true
}

/// The destination directory of a note: the publish root `./dist`
/// extended with the note's `dg_path`.
pub open spec fn spec_build_path(dg_path: Seq<char>) -> Seq<char> {
    "./dist/"@ + dg_path
}

pub fn build_path(dg_path: String) -> (r: String)
    ensures
        r@ == spec_build_path(dg_path@),
{
    let mut out = String::from_str("./dist/");
    out.append(dg_path.as_str());
    out
}

/// The destination file inside a destination directory: its `index.md`.
pub open spec fn spec_index_file_path(dir: Seq<char>) -> Seq<char> {
    dir + "/index.md"@
}

pub fn index_file_path(dir: &String) -> (r: String)
    ensures
        r@ == spec_index_file_path(dir@),
{
    let mut out = dir.clone();
    out.append("/index.md");
    out
}

/// Whether a note's destination calls for a write: only a note with a
/// destination path can; a missing destination file always does; an
/// existing one only where its content differs from the note's once both
/// are trimmed; one that could not be read never does.
pub open spec fn spec_check_update_need(p: PageView, d: DestStateView) -> bool {
    match p.metadata.dg_path {
        Some(_) => match d {
            DestStateView::Missing => true,
            DestStateView::Existing(c) => spec_has_file_diff(p.content, c),
            DestStateView::Unreadable => false,
        },
        None => false,
    }
}

pub fn check_update_need(page: &Page, dest: &DestState) -> (r: bool)
    ensures
        r == spec_check_update_need(page@, dest@),
{
    match &page.metadata.dg_path {
        Some(_) => match dest {
            DestState::Missing => true,
            DestState::Existing(c) => has_file_diff(&page.content, c),
            DestState::Unreadable => false,
        },
        None => false,
    }
}

/// The whole decision for one note whose destination has been read:
/// `Some` holds exactly the trimmed body that belongs in the destination
/// file; `None` means the note is left alone.
pub open spec fn spec_check_and_update_file(p: PageView, d: DestStateView) -> Option<Seq<char>> {
    if p.metadata.dg != Some(true) {
        None
    } else if spec_check_update_need(p, d) && p.metadata.dg == Some(true) && p.metadata.published
        == Some(true) {
        Some(spec_trim(p.content))
    } else {
        None
    }
}

/// Decides one note: a note not marked `dg` is dismissed at once; one
/// that needs an update and is both marked and approved has its trimmed
/// body written. Testing `dg` a second time is deliberate and changes
/// nothing.
pub fn check_and_update_file(page: &Page, dest: &DestState) -> (r: Option<String>)
    ensures
        view_opt_string(r) == spec_check_and_update_file(page@, dest@),
{
    let dg = match page.metadata.dg {
        Some(b) => b,
        None => false,
    };
    let published = match page.metadata.published {
        Some(b) => b,
        None => false,
    };
    if !dg {
        return None;
    }
    if check_update_need(page, dest) {
        if dg && published {
            return Some(trim_str(page.content.as_str()));
        }
    }
    None
}

/// The display name of a source file: its base name with the fixed-length
/// Zettelkasten time-stamp prefix cut off.
pub fn filename_to_destname(filename: String) -> (r: String)
    requires
        filename@.len() >= 13,
    ensures
        r@ == filename@.skip(13),
{
    let n = filename.as_str().unicode_len();
    let r = String::from_str(filename.as_str().substring_char(13, n));
    proof {
        assert(filename@.subrange(13, filename@.len() as int) =~= filename@.skip(13));
    }
    r
}

/// Publishing is idempotent: the write that a decision calls for puts the
/// destination into a state in which the next decision on the same note
/// calls for no write.
pub proof fn lemma_publish_idempotent(p: PageView, d: DestStateView)
    requires
        spec_check_and_update_file(p, d) is Some,
    ensures
        spec_check_and_update_file(
            p,
            DestStateView::Existing(spec_check_and_update_file(p, d)->0),
        ) is None,
{
    lemma_trim_idempotent(p.content);
}

/// Change detection ignores white space at the edges: a destination that
/// differs from the note's body only by leading and trailing white space
/// calls for no write.
pub proof fn lemma_edge_ws_not_rewritten(p: PageView, lead: Seq<char>, tail: Seq<char>)
    requires
        forall|i: int| 0 <= i < lead.len() ==> is_ws(lead[i]),
        forall|i: int| 0 <= i < tail.len() ==> is_ws(tail[i]),
    ensures
        spec_check_and_update_file(p, DestStateView::Existing(lead + p.content + tail)) is None,
{
    lemma_trim_pad(lead, p.content, tail);
}

/// Change detection is content-sensitive: whenever the trimmed texts
/// differ at all, a note with a destination path needs an update, and a
/// note that is also marked and approved is rewritten.
pub proof fn lemma_content_diff_needs_update(p: PageView, existing: Seq<char>)
    requires
        p.metadata.dg_path is Some,
        spec_trim(p.content) != spec_trim(existing),
    ensures
        spec_check_update_need(p, DestStateView::Existing(existing)),
        p.metadata.dg == Some(true) && p.metadata.published == Some(true)
            ==> spec_check_and_update_file(p, DestStateView::Existing(existing)) == Some(
            spec_trim(p.content),
        ),
{
}

/// A note not marked for the digital garden is never written, whatever
/// its other fields say and whatever the destination holds.
pub proof fn lemma_no_dg_never_written(p: PageView, d: DestStateView)
    requires
        p.metadata.dg != Some(true),
    ensures
        spec_check_and_update_file(p, d) is None,
{
}

/// A note not approved for publication is never written, even where its
/// content differs from an existing destination.
pub proof fn lemma_unpublished_never_written(p: PageView, d: DestStateView)
    requires
        p.metadata.published != Some(true),
    ensures
        spec_check_and_update_file(p, d) is None,
{
}

/// The first-publish case: a note marked and approved, with a destination
/// path and no destination file yet, is written, and what is written is
/// exactly its trimmed body.
pub proof fn lemma_first_publish(p: PageView)
    requires
        p.metadata.dg == Some(true),
        p.metadata.published == Some(true),
        p.metadata.dg_path is Some,
    ensures
        spec_check_and_update_file(p, DestStateView::Missing) == Some(spec_trim(p.content)),
{
}

} // verus!
