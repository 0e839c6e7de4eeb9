//! Rendering: the directory-index HTML page and the HTTP responses the
//! gateway can give — download, redirect, and the fixed error bodies.

use vstd::prelude::*;

use crate::model::{DirectoryListing, ObjectMetadata};
use crate::model::{spec_names, spec_rows};
use crate::classify::RequestPath;
use crate::text::{spec_after_last_slash, spec_before_last_slash, spec_ends_with,
    spec_starts_with, spec_trim_trailing_slashes};
use crate::text::{split_last_slash, str_ends_with, str_starts_with, trim_trailing_slashes};

verus! {

/// An HTTP response body: raw bytes for downloads, text for pages and
/// error messages.
pub enum Body {
    Bytes(Vec<u8>),
    Text(String),
}

/// A complete HTTP response, ready for any server framework to send.
pub struct HttpResponse {
    pub status: u16,
    pub headers: Vec<(String, String)>,
    pub body: Body,
}

/// The path as the index page shows it: the root displays as `/`.
pub open spec fn spec_display_path(path: Seq<char>) -> Seq<char> {
    if path.len() == 0 {
        "/"@
    } else {
        path
    }
}

/// The parent path the up-link points at: the part before the last slash
/// of the path without its trailing slashes.
pub open spec fn spec_parent_path(path: Seq<char>) -> Seq<char> {
    if path.len() > 0 && path.last() == '/' {
        spec_before_last_slash(spec_trim_trailing_slashes(path))
    } else {
        spec_before_last_slash(path)
    }
}

/// The up-link row; empty at the root, which has no parent.
pub open spec fn spec_parent_row(path: Seq<char>) -> Seq<char> {
    if path.len() == 0 {
        Seq::<char>::empty()
    } else {
        "<tr><td><a href=\"/"@ + spec_parent_path(path) + "\">../</a></td></tr>"@
    }
}

/// One folder row: a link to the folder key, shown as its last path
/// segment, with `-` for size and date.
pub open spec fn spec_folder_row(f: Seq<char>) -> Seq<char> {
    "<tr><td><i class=\"fa-solid fa-folder\"></i></td> <td><a href=\"/"@ + f + "\">"@
        + spec_after_last_slash(spec_trim_trailing_slashes(f))
        + "</a></td><td align=\"right\">-</td><td align=\"right\">-</td></tr>"@
}

pub open spec fn spec_folder_rows(folders: Seq<Seq<char>>) -> Seq<char>
    decreases folders.len(),
{
    if folders.len() == 0 {
        Seq::<char>::empty()
    } else {
        spec_folder_rows(folders.drop_last()) + spec_folder_row(folders.last())
    }
}

/// One file row: a link to the object key, shown as its last path segment,
/// with the formatted size and timestamp.
pub open spec fn spec_file_row(row: (Seq<char>, Seq<char>, Seq<char>)) -> Seq<char> {
    "<tr><td><i class=\"fa-solid fa-file\"></i></td> <td><a href=\"/"@ + row.0 + "\">"@
        + spec_after_last_slash(row.0) + "</a></td><td align=\"right\">"@ + row.1
        + "</td><td align=\"right\">"@ + row.2 + "</td></tr>"@
}

pub open spec fn spec_file_rows(files: Seq<(Seq<char>, Seq<char>, Seq<char>)>) -> Seq<char>
    decreases files.len(),
{
    if files.len() == 0 {
        Seq::<char>::empty()
    } else {
        spec_file_rows(files.drop_last()) + spec_file_row(files.last())
    }
}

/// The whole index page for a directory path and its merged listing.
/// The page's bytes are a function of these inputs alone, so the same
/// listing always renders identically.
pub open spec fn spec_html(
    path: Seq<char>,
    folders: Seq<Seq<char>>,
    files: Seq<(Seq<char>, Seq<char>, Seq<char>)>,
) -> Seq<char> {
    "\n<!DOCTYPE html>\n<html>\n<head>\n    <title>Index of "@ + spec_display_path(path)
        + "</title>\n    <link rel=\"stylesheet\" href=\"https://cdnjs.cloudflare.com/ajax/libs/font-awesome/6.4.0/css/all.min.css\">\n    <style>td {\n        padding:2px;\n    }</style>\n</head>\n<body>\n    <h1>Index of "@
        + spec_display_path(path)
        + "</h1>\n    <hr>\n    <table style=\"\">\n    <tr>\n    <th valign=\"top\"></th>\n    <th>Name</th>\n    <th>Size</th>\n    <th>Last modified</th>\n    </tr>\n    "@
        + spec_parent_row(path) + "\n    "@ + spec_folder_rows(folders) + "\n    "@
        + spec_file_rows(files) + "\n    </table>\n    <hr>\n</body>\n</html>\n"@
}

fn append_display_path(out: &mut String, path: &str)
    ensures
        final(out)@ == old(out)@ + spec_display_path(path@),
{
    if path.unicode_len() == 0 {
        out.append("/");
    } else {
        out.append(path);
    }
}

fn parent_row_string(path: &str) -> (r: String)
    ensures
        r@ == spec_parent_row(path@),
{
    let n = path.unicode_len();
    if n == 0 {
        String::new()
    } else {
        let mut r = "<tr><td><a href=\"/".to_owned();
        let parent: &str = if path.get_char(n - 1) == '/' {
            let trimmed = trim_trailing_slashes(path);
            let (before, _) = split_last_slash(trimmed);
            before
        } else {
            let (before, _) = split_last_slash(path);
            before
        };
        r.append(parent);
        r.append("\">../</a></td></tr>");
        r
    }
}

fn folder_row_string(f: &str) -> (r: String)
    ensures
        r@ == spec_folder_row(f@),
{
    let mut r = "<tr><td><i class=\"fa-solid fa-folder\"></i></td> <td><a href=\"/".to_owned();
    r.append(f);
    r.append("\">");
    let trimmed = trim_trailing_slashes(f);
    let (_, display) = split_last_slash(trimmed);
    r.append(display);
    r.append("</a></td><td align=\"right\">-</td><td align=\"right\">-</td></tr>");
    r
}

fn file_row_string(row: &(String, String, String)) -> (r: String)
    ensures
        r@ == spec_file_row((row.0@, row.1@, row.2@)),
{
    let mut r = "<tr><td><i class=\"fa-solid fa-file\"></i></td> <td><a href=\"/".to_owned();
    r.append(row.0.as_str());
    r.append("\">");
    let (_, display) = split_last_slash(row.0.as_str());
    r.append(display);
    r.append("</a></td><td align=\"right\">");
    r.append(row.1.as_str());
    r.append("</td><td align=\"right\">");
    r.append(row.2.as_str());
    r.append("</td></tr>");
    r
}

fn folder_rows_string(folders: &Vec<String>) -> (r: String)
    ensures
        r@ == spec_folder_rows(spec_names(folders@)),
{
    let mut r = String::new();
    let mut i: usize = 0;
    while i < folders.len()
        invariant
            i <= folders.len(),
            r@ == spec_folder_rows(spec_names(folders@).take(i as int)),
        decreases folders.len() - i,
    {
        let row = folder_row_string(folders[i].as_str());
        r.append(row.as_str());
        proof {
            let fs = spec_names(folders@);
            assert(fs.take(i as int + 1).drop_last() =~= fs.take(i as int));
            assert(fs.take(i as int + 1).last() == folders@[i as int]@);
        }
        i += 1;
    }
    proof {
        assert(spec_names(folders@).take(folders@.len() as int) =~= spec_names(folders@));
    }
    r
}

fn file_rows_string(files: &Vec<(String, String, String)>) -> (r: String)
    ensures
        r@ == spec_file_rows(spec_rows(files@)),
{
    let mut r = String::new();
    let mut i: usize = 0;
    while i < files.len()
        invariant
            i <= files.len(),
            r@ == spec_file_rows(spec_rows(files@).take(i as int)),
        decreases files.len() - i,
    {
        let row = file_row_string(&files[i]);
        r.append(row.as_str());
        proof {
            let fs = spec_rows(files@);
            assert(fs.take(i as int + 1).drop_last() =~= fs.take(i as int));
            assert(fs.take(i as int + 1).last() == (files@[i as int].0@, files@[i as int].1@,
            files@[i as int].2@));
        }
        i += 1;
    }
    proof {
        assert(spec_rows(files@).take(files@.len() as int) =~= spec_rows(files@));
    }
    r
}

/// Builds the directory-index page for a path from its merged folder keys
/// and file rows.
pub fn build_html(
    path_str: String,
    folders: Vec<String>,
    files: Vec<(String, String, String)>,
) -> (html: String)
    ensures
        html@ == spec_html(path_str@, spec_names(folders@), spec_rows(files@)),
{
    let mut s = "\n<!DOCTYPE html>\n<html>\n<head>\n    <title>Index of ".to_owned();
    append_display_path(&mut s, path_str.as_str());
    s.append(
        "</title>\n    <link rel=\"stylesheet\" href=\"https://cdnjs.cloudflare.com/ajax/libs/font-awesome/6.4.0/css/all.min.css\">\n    <style>td {\n        padding:2px;\n    }</style>\n</head>\n<body>\n    <h1>Index of ",
    );
    append_display_path(&mut s, path_str.as_str());
    s.append(
        "</h1>\n    <hr>\n    <table style=\"\">\n    <tr>\n    <th valign=\"top\"></th>\n    <th>Name</th>\n    <th>Size</th>\n    <th>Last modified</th>\n    </tr>\n    ",
    );
    let parent = parent_row_string(path_str.as_str());
    s.append(parent.as_str());
    s.append("\n    ");
    let folder_rows = folder_rows_string(&folders);
    s.append(folder_rows.as_str());
    s.append("\n    ");
    let file_rows = file_rows_string(&files);
    s.append(file_rows.as_str());
    s.append("\n    </table>\n    <hr>\n</body>\n</html>\n");
    s
}

/// The content type the response reports: the backend's, or the octet-stream
/// default when the backend reported none.
pub open spec fn spec_content_type(m: ObjectMetadata) -> Seq<char> {
    match m.content_type {
        Some(t) => t@,
        None => "application/octet-stream"@,
    }
}

/// The name a download is saved under: the path's last segment.
pub open spec fn spec_filename(path: Seq<char>) -> Seq<char> {
    spec_after_last_slash(path)
}

/// A download is shown inline for text content types, and for names ending
/// in the literal suffixes `env` or `list` — a plain suffix match, not an
/// extension match.
pub open spec fn spec_inline(content_type: Seq<char>, filename: Seq<char>) -> bool {
    spec_starts_with(content_type, "text/"@) || spec_ends_with(filename, "env"@)
        || spec_ends_with(filename, "list"@)
}

/// The whole `Content-Disposition` value for a download.
pub open spec fn spec_disposition_value(content_type: Seq<char>, filename: Seq<char>) -> Seq<
    char,
> {
    (if spec_inline(content_type, filename) {
        "inline"@
    } else {
        "attachment"@
    }) + "; filename=\""@ + filename + "\""@
}

fn render_file(path: &RequestPath, meta: &ObjectMetadata, data: Vec<u8>) -> (r: HttpResponse)
    ensures
        r.status == 200,
        (r.body matches Body::Bytes(b) && b@ == data@),
        r.headers@.len() == 2,
        r.headers@[0].0@ == "Content-Disposition"@,
        r.headers@[0].1@ == spec_disposition_value(spec_content_type(*meta), spec_filename(
            path@,
        )),
        r.headers@[1].0@ == "Content-Type"@,
        r.headers@[1].1@ == spec_content_type(*meta),
{
    let (_, filename) = split_last_slash(path.as_str());
    let content_type: &str = match &meta.content_type {
        Some(t) => t.as_str(),
        None => "application/octet-stream",
    };
    let inline = str_starts_with(content_type, "text/") || str_ends_with(filename, "env")
        || str_ends_with(filename, "list");
    let mut disposition = if inline {
        "inline".to_owned()
    } else {
        "attachment".to_owned()
    };
    disposition.append("; filename=\"");
    disposition.append(filename);
    disposition.append("\"");
    let content_type_value = content_type.to_owned();
    let mut headers: Vec<(String, String)> = Vec::new();
    headers.push(("Content-Disposition".to_owned(), disposition));
    headers.push(("Content-Type".to_owned(), content_type_value));
    HttpResponse { status: 200, headers, body: Body::Bytes(data) }
}

/// The response for a classified file: its bytes when the download
/// succeeded, else the not-found answer the gateway deliberately gives
/// for a download that failed after its metadata was seen.
pub fn render_download(
    path: &RequestPath,
    meta: &ObjectMetadata,
    data: Option<Vec<u8>>,
) -> (r: HttpResponse)
    ensures
        data matches Some(bytes) ==> (r.status == 200 && (r.body matches Body::Bytes(b) && b@
            == bytes@) && r.headers@.len() == 2 && r.headers@[0].0@ == "Content-Disposition"@
            && r.headers@[0].1@ == spec_disposition_value(
            spec_content_type(*meta),
            spec_filename(path@),
        ) && r.headers@[1].0@ == "Content-Type"@ && r.headers@[1].1@ == spec_content_type(
            *meta,
        )),
        data is None ==> (r.status == 404 && (r.body matches Body::Text(t) && t@
            == "File not found"@) && r.headers@.len() == 0),
{
    match data {
        Some(bytes) => render_file(path, meta, bytes),
        None => HttpResponse {
            status: 404,
            headers: Vec::new(),
            body: Body::Text("File not found".to_owned()),
        },
    }
}

/// The directory-index response: the rendered page of the merged listing.
pub fn render_directory(path: String, listing: DirectoryListing) -> (r: HttpResponse)
    ensures
        r.status == 200,
        r.headers@.len() == 1,
        r.headers@[0].0@ == "Content-Type"@,
        r.headers@[0].1@ == "text/html"@,
        (r.body matches Body::Text(t) && t@ == spec_html(
            path@,
            spec_names(listing.folders@),
            spec_rows(listing.files@),
        )),
{
    let DirectoryListing { folders, files } = listing;
    let html = build_html(path, folders, files);
    let mut headers: Vec<(String, String)> = Vec::new();
    headers.push(("Content-Type".to_owned(), "text/html".to_owned()));
    HttpResponse { status: 200, headers, body: Body::Text(html) }
}

/// The redirect to a directory's canonical path: `/` plus the carried
/// canonical path in the `Location` header.
pub fn render_redirect(location: &str) -> (r: HttpResponse)
    ensures
        r.status == 302,
        r.headers@.len() == 1,
        r.headers@[0].0@ == "Location"@,
        r.headers@[0].1@ == seq!['/'] + location@,
        (r.body matches Body::Bytes(b) && b@.len() == 0),
{
    let mut loc = "/".to_owned();
    loc.append(location);
    proof {
        reveal_strlit("/");
        assert(loc@ =~= seq!['/'] + location@);
    }
    let mut headers: Vec<(String, String)> = Vec::new();
    headers.push(("Location".to_owned(), loc));
    HttpResponse { status: 302, headers, body: Body::Bytes(Vec::new()) }
}

/// The answer for a path that is neither an object nor a directory.
pub fn render_not_found() -> (r: HttpResponse)
    ensures
        r.status == 404,
        r.headers@.len() == 0,
        (r.body matches Body::Text(t) && t@ == "Not Found"@),
{
    HttpResponse { status: 404, headers: Vec::new(), body: Body::Text("Not Found".to_owned()) }
}

/// The answer when any page of a listing failed: the whole request fails,
/// and no partial listing is shown.
pub fn render_listing_error() -> (r: HttpResponse)
    ensures
        r.status == 500,
        r.headers@.len() == 0,
        (r.body matches Body::Text(t) && t@ == "Error listing content"@),
{
    HttpResponse {
        status: 500,
        headers: Vec::new(),
        body: Body::Text("Error listing content".to_owned()),
    }
}

} // verus!
