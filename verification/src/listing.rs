//! Listing aggregation: formatting of sizes and timestamps, and the
//! page-by-page merge of a paginated directory listing.

use vstd::prelude::*;

use crate::model::{DirectoryListing, ListingPage, ObjectEntry, Timestamp};
use crate::model::{spec_names, spec_rows};
use crate::text::{spec_dec, spec_pad2, spec_pad4};
use crate::text::{u64_to_string, u64_to_string_pad2, u64_to_string_pad4};

verus! {

/// How many entries one listing page may carry; a tunable bound on per-call
/// latency and memory, not a rule of the listing's meaning.
pub const LIST_PAGE_MAX_RESULTS: u32 = 2500;

/// Division rounded to the nearest integer, ties away from zero.
pub open spec fn spec_round_div(n: nat, d: nat) -> nat
    recommends
        d > 0,
{
    n / d + if n % d * 2 >= d {
        1nat
    } else {
        0nat
    }
}

/// The size column: plain bytes up to 1024; over 1024 and up to 1048576,
/// rounded kibibytes with a `K`; over 1048576, rounded mebibytes with an `M`.
/// The thresholds are strict: 1024 itself renders as `1024`.
pub open spec fn spec_format_size(n: u64) -> Seq<char> {
    if n > 1048576 {
        spec_dec(spec_round_div(n as nat, 1048576)) + seq!['M']
    } else if n > 1024 {
        spec_dec(spec_round_div(n as nat, 1024)) + seq!['K']
    } else {
        spec_dec(n as nat)
    }
}

/// The date column: `YYYY-MM-DD HH:MM`.
pub open spec fn spec_format_timestamp(t: Timestamp) -> Seq<char> {
    spec_pad4(t.year as nat) + seq!['-'] + spec_pad2(t.month as nat) + seq!['-'] + spec_pad2(
        t.day as nat,
    ) + seq![' '] + spec_pad2(t.hour as nat) + seq![':'] + spec_pad2(t.minute as nat)
}

pub fn format_size(n: u64) -> (s: String)
    ensures
        s@ == spec_format_size(n),
{
    if n > 1048576 {
        let q = n / 1048576;
        let r = n % 1048576;
        let rounded = if r >= 524288 {
            q + 1
        } else {
            q
        };
        let mut s = u64_to_string(rounded);
        s.append("M");
        proof {
            reveal_strlit("M");
            assert(s@ =~= spec_format_size(n));
        }
        s
    } else if n > 1024 {
        let q = n / 1024;
        let r = n % 1024;
        let rounded = if r >= 512 {
            q + 1
        } else {
            q
        };
        let mut s = u64_to_string(rounded);
        s.append("K");
        proof {
            reveal_strlit("K");
            assert(s@ =~= spec_format_size(n));
        }
        s
    } else {
        u64_to_string(n)
    }
}

pub fn format_timestamp(t: &Timestamp) -> (s: String)
    ensures
        s@ == spec_format_timestamp(*t),
{
    let mut s = u64_to_string_pad4(t.year as u64);
    s.append("-");
    let part = u64_to_string_pad2(t.month as u64);
    s.append(part.as_str());
    s.append("-");
    let part = u64_to_string_pad2(t.day as u64);
    s.append(part.as_str());
    s.append(" ");
    let part = u64_to_string_pad2(t.hour as u64);
    s.append(part.as_str());
    s.append(":");
    let part = u64_to_string_pad2(t.minute as u64);
    s.append(part.as_str());
    proof {
        reveal_strlit("-");
        reveal_strlit(" ");
        reveal_strlit(":");
        assert(s@ =~= spec_format_timestamp(*t));
    }
    s
}

/// Whether a listed entry appears in the file rows: the listing's own path
/// is suppressed, and so is any entry without a modification timestamp.
pub open spec fn spec_keep_entry(path: Seq<char>, e: ObjectEntry) -> bool {
    e.name@ != path && e.updated is Some
}

/// The file row a kept entry turns into.
pub open spec fn spec_row_of(e: ObjectEntry) -> (Seq<char>, Seq<char>, Seq<char>)
    recommends
        e.updated is Some,
{
    (e.name@, spec_format_size(e.size), spec_format_timestamp(e.updated.unwrap()))
}

/// The file rows contributed by one page's items, in order.
pub open spec fn spec_page_rows(path: Seq<char>, items: Seq<ObjectEntry>) -> Seq<
    (Seq<char>, Seq<char>, Seq<char>),
>
    decreases items.len(),
{
    if items.len() == 0 {
        Seq::empty()
    } else {
        let rest = spec_page_rows(path, items.drop_last());
        if spec_keep_entry(path, items.last()) {
            rest.push(spec_row_of(items.last()))
        } else {
            rest
        }
    }
}

/// What the next listing call should do after a page was merged.
pub enum PageStep {
    /// Fetch the next page with this token.
    Continue(String),
    /// The listing is complete.
    Done,
}

/// Merges the pages of one directory listing, in the order the backend
/// returns them. Folder prefixes are captured from every page, since a
/// sorted backend may interleave prefixes and items across pages.
pub struct ListingAggregator {
    path: String,
    listing: DirectoryListing,
}

impl ListingAggregator {
    /// The request path this listing is for.
    pub closed spec fn spec_path(&self) -> Seq<char> {
        self.path@
    }

    /// The folder keys merged so far.
    pub closed spec fn folders(&self) -> Seq<Seq<char>> {
        spec_names(self.listing.folders@)
    }

    /// The file rows merged so far.
    pub closed spec fn files(&self) -> Seq<(Seq<char>, Seq<char>, Seq<char>)> {
        spec_rows(self.listing.files@)
    }

    pub fn new(path: String) -> (a: Self)
        ensures
            a.spec_path() == path@,
            a.folders() == Seq::<Seq<char>>::empty(),
            a.files() == Seq::<(Seq<char>, Seq<char>, Seq<char>)>::empty(),
    {
        let a = ListingAggregator {
            path,
            listing: DirectoryListing { folders: Vec::new(), files: Vec::new() },
        };
        proof {
            assert(a.folders() =~= Seq::<Seq<char>>::empty());
            assert(a.files() =~= Seq::<(Seq<char>, Seq<char>, Seq<char>)>::empty());
        }
        a
    }

    /// Merges one page: appends its prefixes to the folders, and its kept
    /// items, formatted, to the files; says whether a further page is owed.
    pub fn absorb_page(&mut self, page: ListingPage) -> (step: PageStep)
        ensures
            final(self).spec_path() == old(self).spec_path(),
            final(self).folders() == old(self).folders() + spec_names(page.prefixes@),
            final(self).files() == old(self).files() + spec_page_rows(
                old(self).spec_path(),
                page.items@,
            ),
            step matches PageStep::Continue(t) <==> page.next_page_token is Some,
            (step matches PageStep::Continue(t) ==> page.next_page_token matches Some(u) && t@
                == u@),
    {
        let ListingPage { prefixes, items, next_page_token } = page;
        let ghost old_folders = self.folders();
        let mut i: usize = 0;
        while i < prefixes.len()
            invariant
                i <= prefixes.len(),
                self.spec_path() == old(self).spec_path(),
                self.files() == old(self).files(),
                self.folders() == old_folders + spec_names(prefixes@.take(i as int)),
            decreases prefixes.len() - i,
        {
            let name = prefixes[i].clone();
            let ghost pre = self.listing.folders@;
            self.listing.folders.push(name);
            proof {
                crate::model::lemma_names_push(pre, prefixes@[i as int]);
                crate::model::lemma_names_push(
                    prefixes@.take(i as int),
                    prefixes@[i as int],
                );
                assert(prefixes@.take(i as int).push(prefixes@[i as int]) =~= prefixes@.take(
                    i as int + 1,
                ));
                assert(self.folders() =~= old_folders + spec_names(
                    prefixes@.take(i as int + 1),
                ));
            }
            i += 1;
        }
        proof {
            assert(prefixes@.take(prefixes@.len() as int) =~= prefixes@);
            assert(self.folders() =~= old(self).folders() + spec_names(prefixes@));
        }
        let ghost old_files = self.files();
        let ghost path_view = self.spec_path();
        let mut j: usize = 0;
        while j < items.len()
            invariant
                j <= items.len(),
                self.spec_path() == old(self).spec_path(),
                path_view == old(self).spec_path(),
                self.folders() == old(self).folders() + spec_names(prefixes@),
                self.files() == old_files + spec_page_rows(path_view, items@.take(j as int)),
            decreases items.len() - j,
        {
            proof {
                assert(items@.take(j as int + 1).drop_last() =~= items@.take(j as int));
                assert(items@.take(j as int + 1).last() == items@[j as int]);
            }
            let keep = items[j].name != self.path;
            if keep {
                match items[j].updated {
                    Some(ts) => {
                        let size_s = format_size(items[j].size);
                        let time_s = format_timestamp(&ts);
                        let name = items[j].name.clone();
                        let ghost pre = self.listing.files@;
                        let ghost row = (name, size_s, time_s);
                        self.listing.files.push((name, size_s, time_s));
                        proof {
                            crate::model::lemma_rows_push(pre, row);
                            assert((row.0@, row.1@, row.2@) == spec_row_of(items@[j as int]));
                            assert(self.files() =~= old_files + spec_page_rows(
                                path_view,
                                items@.take(j as int + 1),
                            ));
                        }
                    },
                    None => {},
                }
            }
            j += 1;
        }
        proof {
            assert(items@.take(items@.len() as int) =~= items@);
            assert(self.files() =~= old(self).files() + spec_page_rows(
                old(self).spec_path(),
                items@,
            ));
        }
        match next_page_token {
            Some(t) => PageStep::Continue(t),
            None => PageStep::Done,
        }
    }

    /// Hands the merged listing out.
    pub fn finish(self) -> (l: DirectoryListing)
        ensures
            spec_names(l.folders@) == self.folders(),
            spec_rows(l.files@) == self.files(),
    {
        self.listing
    }
}

/// All prefixes of a run of pages, in page order.
pub open spec fn spec_all_prefixes(pages: Seq<ListingPage>) -> Seq<String>
    decreases pages.len(),
{
    if pages.len() == 0 {
        Seq::empty()
    } else {
        spec_all_prefixes(pages.drop_last()) + pages.last().prefixes@
    }
}

/// All items of a run of pages, in page order.
pub open spec fn spec_all_items(pages: Seq<ListingPage>) -> Seq<ObjectEntry>
    decreases pages.len(),
{
    if pages.len() == 0 {
        Seq::empty()
    } else {
        spec_all_items(pages.drop_last()) + pages.last().items@
    }
}

/// The folders a page-by-page merge accumulates over a run of pages.
pub open spec fn spec_merged_folders(pages: Seq<ListingPage>) -> Seq<Seq<char>>
    decreases pages.len(),
{
    if pages.len() == 0 {
        Seq::empty()
    } else {
        spec_merged_folders(pages.drop_last()) + spec_names(pages.last().prefixes@)
    }
}

/// The file rows a page-by-page merge accumulates over a run of pages.
pub open spec fn spec_merged_files(path: Seq<char>, pages: Seq<ListingPage>) -> Seq<
    (Seq<char>, Seq<char>, Seq<char>),
>
    decreases pages.len(),
{
    if pages.len() == 0 {
        Seq::empty()
    } else {
        spec_merged_files(path, pages.drop_last()) + spec_page_rows(path, pages.last().items@)
    }
}

proof fn lemma_page_rows_concat(path: Seq<char>, a: Seq<ObjectEntry>, b: Seq<ObjectEntry>)
    ensures
        spec_page_rows(path, a + b) == spec_page_rows(path, a) + spec_page_rows(path, b),
    decreases b.len(),
{
    if b.len() == 0 {
        assert(a + b =~= a);
        assert(spec_page_rows(path, a) + spec_page_rows(path, b) =~= spec_page_rows(path, a));
    } else {
        lemma_page_rows_concat(path, a, b.drop_last());
        assert((a + b).drop_last() =~= a + b.drop_last());
        assert((a + b).last() == b.last());
        if spec_keep_entry(path, b.last()) {
            assert(spec_page_rows(path, a) + spec_page_rows(path, b) =~= (spec_page_rows(path, a)
                + spec_page_rows(path, b.drop_last())).push(spec_row_of(b.last())));
        }
    }
}

/// A directory's merged listing is the union of its pages: the folders are
/// all pages' prefixes in order, and the files are exactly the kept,
/// formatted items of all pages in order — as if the whole listing had
/// arrived in one page. Files without a timestamp and the listing's own
/// path contribute nothing, on whichever page they appear.
pub proof fn lemma_merge_is_union(path: Seq<char>, pages: Seq<ListingPage>)
    ensures
        spec_merged_folders(pages) == spec_names(spec_all_prefixes(pages)),
        spec_merged_files(path, pages) == spec_page_rows(path, spec_all_items(pages)),
    decreases pages.len(),
{
    if pages.len() == 0 {
        assert(spec_names(spec_all_prefixes(pages)) =~= Seq::<Seq<char>>::empty());
        assert(spec_page_rows(path, spec_all_items(pages)) =~= Seq::<
            (Seq<char>, Seq<char>, Seq<char>),
        >::empty());
    } else {
        lemma_merge_is_union(path, pages.drop_last());
        assert(spec_names(spec_all_prefixes(pages)) =~= spec_names(
            spec_all_prefixes(pages.drop_last()),
        ) + spec_names(pages.last().prefixes@));
        lemma_page_rows_concat(path, spec_all_items(pages.drop_last()), pages.last().items@);
    }
}

} // verus!
