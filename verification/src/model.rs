//! The data the gateway works on: object metadata, listing pages, and the
//! directory listing that aggregation builds. All values are plain; the
//! storage backend's own types never enter the library.

use vstd::prelude::*;

verus! {

/// A civil timestamp, in whatever zone the storage backend reports;
/// the library applies no conversion.
#[derive(Clone, Copy, Debug, PartialEq, Eq, Structural)]
pub struct Timestamp {
    pub year: u16,
    pub month: u8,
    pub day: u8,
    pub hour: u8,
    pub minute: u8,
}

/// What a metadata probe returns for an existing object.
#[derive(Debug)]
pub struct ObjectMetadata {
    /// The object's full key.
    pub key: String,
    /// The content type the backend reports, if any.
    pub content_type: Option<String>,
}

/// One object named by a listing page.
#[derive(Debug)]
pub struct ObjectEntry {
    /// The object's full key.
    pub name: String,
    /// The object's size in bytes.
    pub size: u64,
    /// When the object was last modified; entries without one are not listed.
    pub updated: Option<Timestamp>,
}

/// What one delimited list call returns.
#[derive(Debug)]
pub struct ListingPage {
    /// Sub-directory keys, each ending in `/`.
    pub prefixes: Vec<String>,
    /// The objects directly under the listed prefix.
    pub items: Vec<ObjectEntry>,
    /// The cursor for the next page, absent on the last page.
    pub next_page_token: Option<String>,
}

/// The merged result of a full directory listing: folder keys, and
/// `(key, formatted size, formatted timestamp)` rows for files.
#[derive(Debug)]
pub struct DirectoryListing {
    pub folders: Vec<String>,
    pub files: Vec<(String, String, String)>,
}

/// The views of a sequence of strings.
pub open spec fn spec_names(v: Seq<String>) -> Seq<Seq<char>> {
    v.map_values(|s: String| s@)
}

/// The views of a sequence of file rows.
pub open spec fn spec_rows(v: Seq<(String, String, String)>) -> Seq<
    (Seq<char>, Seq<char>, Seq<char>),
> {
    v.map_values(|t: (String, String, String)| (t.0@, t.1@, t.2@))
}

pub proof fn lemma_names_push(v: Seq<String>, s: String)
    ensures
        spec_names(v.push(s)) == spec_names(v).push(s@),
{
    assert(spec_names(v.push(s)) =~= spec_names(v).push(s@));
}

pub proof fn lemma_rows_push(v: Seq<(String, String, String)>, t: (String, String, String))
    ensures
        spec_rows(v.push(t)) == spec_rows(v).push((t.0@, t.1@, t.2@)),
{
    assert(spec_rows(v.push(t)) =~= spec_rows(v).push((t.0@, t.1@, t.2@)));
}

} // verus!
