//! Per-request orchestration: what a classified path asks the host to do
//! next. The host performs the storage calls and hands their results back;
//! every decision between them is made and checked here.

use vstd::prelude::*;

use crate::classify::{canonical_dir, spec_canonical_dir, Classification, RequestPath};
use crate::model::ObjectMetadata;
use crate::render::{render_not_found, render_redirect, Body, HttpResponse};

verus! {

/// What serving a request takes after classification.
pub enum RequestAction {
    /// Download the object and answer with `render_download`.
    ServeFile { key: String, meta: ObjectMetadata },
    /// List the prefix page by page through a `ListingAggregator` and
    /// answer with `render_directory`; `prefix` is absent at the bucket
    /// root, where the whole bucket is listed.
    ListDirectory { prefix: Option<String>, path: String },
    /// Answer at once, with no further storage call.
    Respond(HttpResponse),
}

/// Maps a classification to the action that serves it: a file is
/// downloaded, a directory is listed under its canonical prefix, a
/// misshapen directory path is redirected, and an unmatched path is
/// answered not-found.
pub fn action_for(path: &RequestPath, c: Classification) -> (a: RequestAction)
    ensures
        c matches Classification::IsFile(m) ==> (a matches RequestAction::ServeFile {
            key,
            meta,
        } && key@ == path@ && meta == m),
        c matches Classification::IsDirectory ==> (a matches RequestAction::ListDirectory {
            prefix,
            path: p,
        } && p@ == path@ && (path@.len() == 0 ==> prefix is None) && (path@.len() > 0 ==> (
        prefix matches Some(x) && x@ == spec_canonical_dir(path@)))),
        c matches Classification::IsDirectoryNeedsRedirect(loc) ==> (a
            matches RequestAction::Respond(r) && r.status == 302 && r.headers@.len() == 1
            && r.headers@[0].0@ == "Location"@ && r.headers@[0].1@ == seq!['/'] + loc@ && (
        r.body matches Body::Bytes(b) && b@.len() == 0)),
        c matches Classification::NotFound ==> (a matches RequestAction::Respond(r) && r.status
            == 404 && r.headers@.len() == 0 && (r.body matches Body::Text(t) && t@
            == "Not Found"@)),
{
    match c {
        Classification::IsFile(meta) => RequestAction::ServeFile {
            key: path.as_str().to_owned(),
            meta,
        },
        Classification::IsDirectory => {
            let prefix = if path.as_str().unicode_len() == 0 {
                None
            } else {
                Some(canonical_dir(path.as_str()))
            };
            RequestAction::ListDirectory { prefix, path: path.as_str().to_owned() }
        },
        Classification::IsDirectoryNeedsRedirect(loc) => RequestAction::Respond(
            render_redirect(loc.as_str()),
        ),
        Classification::NotFound => RequestAction::Respond(render_not_found()),
    }
}

} // verus!
