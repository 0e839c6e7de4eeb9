//! Path classification: deciding whether a request path names an object,
//! a virtual directory, or nothing, and which storage probes that takes.

use vstd::prelude::*;

use crate::model::{ListingPage, ObjectMetadata};
use crate::text::{spec_trim_leading_slashes, spec_trim_trailing_slashes, trim_leading_slashes,
    trim_trailing_slashes};

verus! {

/// How many results an existence probe asks for: one is enough to tell
/// whether anything lives under a prefix.
pub const PROBE_MAX_RESULTS: u32 = 1;

/// A request path: slash-separated, never with a leading slash. Empty
/// means the bucket root; a trailing slash is an explicit directory hint.
pub struct RequestPath {
    path: String,
}

impl View for RequestPath {
    type V = Seq<char>;

    closed spec fn view(&self) -> Seq<char> {
        self.path@
    }
}

proof fn lemma_trimmed_has_no_leading_slash(s: Seq<char>)
    ensures
        spec_trim_leading_slashes(s).len() == 0 || spec_trim_leading_slashes(s)[0] != '/',
    decreases s.len(),
{
    if s.len() > 0 && s[0] == '/' {
        lemma_trimmed_has_no_leading_slash(s.drop_first());
    }
}

impl RequestPath {
    /// No leading slash; established at construction and never disturbed.
    pub open spec fn wf(&self) -> bool {
        self@.len() == 0 || self@[0] != '/'
    }

    /// Normalizes a raw URL path by stripping its leading slashes.
    pub fn from_raw(raw: &str) -> (p: Self)
        ensures
            p@ == spec_trim_leading_slashes(raw@),
            p.wf(),
    {
        let trimmed = trim_leading_slashes(raw);
        proof {
            lemma_trimmed_has_no_leading_slash(raw@);
        }
        RequestPath { path: trimmed.to_owned() }
    }

    pub fn as_str(&self) -> (s: &str)
        ensures
            s@ == self@,
    {
        self.path.as_str()
    }
}

/// What a request path can turn out to denote.
pub enum Classification {
    /// An existing object, to be served as a download.
    IsFile(ObjectMetadata),
    /// A directory whose path is already canonical; list it.
    IsDirectory,
    /// A directory requested without its trailing slash; redirect to the
    /// carried canonical path.
    IsDirectoryNeedsRedirect(String),
    /// Neither an object nor anything under the matching prefix.
    NotFound,
}

/// The probes classification needs for a given path shape.
pub enum ClassifyPlan {
    /// The bucket root: a directory with nothing to probe.
    AlreadyDirectory,
    /// The path ends in `/`: one listing probe on the canonical prefix
    /// settles directory versus not-found.
    ProbeDirectory { prefix: String },
    /// A plain path: probe the object's metadata, and probe the listing
    /// under `key/` for a shadowing directory.
    ProbeObject { key: String, shadow_prefix: String },
}

/// The prefix with exactly one trailing slash that stands for a directory
/// path in listing calls.
pub open spec fn spec_canonical_dir(p: Seq<char>) -> Seq<char> {
    spec_trim_trailing_slashes(p) + seq!['/']
}

/// Builds the canonical directory prefix for a path: its trailing slashes
/// replaced by exactly one.
pub fn canonical_dir(s: &str) -> (r: String)
    ensures
        r@ == spec_canonical_dir(s@),
{
    let trimmed = trim_trailing_slashes(s);
    let mut r = trimmed.to_owned();
    r.append("/");
    proof {
        reveal_strlit("/");
        assert(r@ =~= spec_canonical_dir(s@));
    }
    r
}

pub fn classify_plan(path: &RequestPath) -> (plan: ClassifyPlan)
    ensures
        path@.len() == 0 ==> plan matches ClassifyPlan::AlreadyDirectory,
        path@.len() > 0 && path@.last() == '/' ==> (plan matches ClassifyPlan::ProbeDirectory {
            prefix,
        } && prefix@ == spec_canonical_dir(path@)),
        path@.len() > 0 && path@.last() != '/' ==> (plan matches ClassifyPlan::ProbeObject {
            key,
            shadow_prefix,
        } && key@ == path@ && shadow_prefix@ == path@ + seq!['/']),
{
    let s = path.as_str();
    let n = s.unicode_len();
    if n == 0 {
        ClassifyPlan::AlreadyDirectory
    } else if s.get_char(n - 1) == '/' {
        let trimmed = trim_trailing_slashes(s);
        let mut prefix = trimmed.to_owned();
        prefix.append("/");
        proof {
            reveal_strlit("/");
            assert(prefix@ =~= spec_canonical_dir(path@));
        }
        ClassifyPlan::ProbeDirectory { prefix }
    } else {
        let key = s.to_owned();
        let mut shadow_prefix = s.to_owned();
        shadow_prefix.append("/");
        proof {
            reveal_strlit("/");
            assert(shadow_prefix@ =~= path@ + seq!['/']);
        }
        ClassifyPlan::ProbeObject { key, shadow_prefix }
    }
}

/// What came back from one listing probe. A storage error during
/// classification fails open: it counts as "nothing found".
pub enum ProbeOutcome {
    Page(ListingPage),
    Error,
}

/// Whether a probe showed anything living under the probed prefix.
pub open spec fn spec_probe_found(o: ProbeOutcome) -> bool {
    o matches ProbeOutcome::Page(pg) && (pg.prefixes@.len() > 0 || pg.items@.len() > 0)
}

/// Settles a path that already ended in `/` (so never a redirect): it is a
/// directory exactly when the probe found something under its prefix.
pub fn decide_directory_probe(probe: ProbeOutcome) -> (c: Classification)
    ensures
        spec_probe_found(probe) ==> c matches Classification::IsDirectory,
        !spec_probe_found(probe) ==> c matches Classification::NotFound,
{
    match probe {
        ProbeOutcome::Page(pg) => {
            if pg.prefixes.len() > 0 || pg.items.len() > 0 {
                Classification::IsDirectory
            } else {
                Classification::NotFound
            }
        },
        ProbeOutcome::Error => Classification::NotFound,
    }
}

/// Settles a plain path from its two probes. A shadowing directory wins
/// over an existing object, and asks for a redirect to the canonical
/// `path/`; otherwise the object, if its metadata probe succeeded, is a
/// file; otherwise nothing matches.
pub fn decide_object_probe(
    path: &RequestPath,
    meta: Option<ObjectMetadata>,
    shadow: ProbeOutcome,
) -> (c: Classification)
    requires
        path@.len() > 0,
        path@.last() != '/',
    ensures
        spec_probe_found(shadow) ==> (c matches Classification::IsDirectoryNeedsRedirect(loc)
            && loc@ == path@ + seq!['/']),
        !spec_probe_found(shadow) && meta is Some ==> (c matches Classification::IsFile(m) && m
            == meta.unwrap()),
        !spec_probe_found(shadow) && meta is None ==> c matches Classification::NotFound,
{
    let found = match &shadow {
        ProbeOutcome::Page(pg) => pg.prefixes.len() > 0 || pg.items.len() > 0,
        ProbeOutcome::Error => false,
    };
    if found {
        let mut loc = path.as_str().to_owned();
        loc.append("/");
        proof {
            reveal_strlit("/");
            assert(loc@ =~= path@ + seq!['/']);
        }
        Classification::IsDirectoryNeedsRedirect(loc)
    } else {
        match meta {
            Some(m) => Classification::IsFile(m),
            None => Classification::NotFound,
        }
    }
}

} // verus!
