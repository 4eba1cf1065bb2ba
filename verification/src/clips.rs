//! Clip metadata collection: the record type, the append-only collection,
//! and the cursor-paginated listing walk.
//!
//! The listing endpoint is a network collaborator; the surrounding program
//! performs each request and hands the outcome here as a plain value. This
//! module decides, per page, whether to continue with the returned cursor or
//! to stop, and it accumulates the records in upstream order. A rejected or
//! unanswered page request truncates the listing: whatever was accumulated
//! is returned as a degraded success, never thrown away.

use vstd::prelude::*;

verus! {

/// One entry of the upstream listing response, reduced to the fields this
/// pipeline reads.
#[derive(Debug, Clone, PartialEq)]
pub struct ListingItem {
    pub title: String,
    pub creator_name: String,
    pub created_at: String,
    pub thumbnail_url: String,
}

/// One clip record. `video_url` stays absent until the resolver has run over
/// the owning collection; once set it is a pure function of `thumbnail_url`.
#[derive(Debug, Clone, PartialEq)]
pub struct ClipInfo {
    pub name: String,
    pub created_by: String,
    pub created_date: String,
    pub thumbnail_url: String,
    pub video_url: Option<String>,
}

/// The record a fresh listing entry turns into: fields carried over,
/// `video_url` absent.
pub open spec fn clip_of(item: ListingItem) -> ClipInfo {
    ClipInfo {
        name: item.title,
        created_by: item.creator_name,
        created_date: item.created_at,
        thumbnail_url: item.thumbnail_url,
        video_url: None,
    }
}

/// An ordered collection of clip records, append-only during a fetch.
#[derive(Debug, PartialEq)]
pub struct Clips {
    pub clips: Vec<ClipInfo>,
}

impl Default for Clips {
    /// An empty collection.
    fn default() -> (r: Self)
        ensures
            r.clips@ == Seq::<ClipInfo>::empty(),
    {
        Clips { clips: Vec::new() }
    }
}

impl Clips {
    /// An empty collection with room reserved for `capacity` records.
    pub fn with_capacity(capacity: usize) -> (r: Self)
        ensures
            r.clips@ == Seq::<ClipInfo>::empty(),
    {
        Clips { clips: Vec::with_capacity(capacity) }
    }

    /// Appends one page of listing entries, converted to records, preserving
    /// their upstream order.
    pub fn append_from_data(&mut self, data: Vec<ListingItem>)
        ensures
            final(self).clips@ == old(self).clips@ + data@.map_values(|it: ListingItem| clip_of(it)),
    {
        let ghost orig = data@;
        let ghost start = self.clips@;
        let mut data = data;
        let ghost mut taken: int = 0;
        while data.len() > 0
            invariant
                0 <= taken <= orig.len(),
                data@ == orig.subrange(taken, orig.len() as int),
                self.clips@ == start + orig.subrange(0, taken).map_values(
                    |it: ListingItem| clip_of(it),
                ),
            decreases data@.len(),
        {
            let item = data.remove(0);
            proof {
                assert(orig.subrange(taken, orig.len() as int).remove(0) =~= orig.subrange(
                    taken + 1,
                    orig.len() as int,
                ));
                assert(item == orig[taken]);
            }
            self.clips.push(
                ClipInfo {
                    name: item.title,
                    created_by: item.creator_name,
                    created_date: item.created_at,
                    thumbnail_url: item.thumbnail_url,
                    video_url: None,
                },
            );
            proof {
                taken = taken + 1;
                assert(orig.subrange(0, taken).map_values(|it: ListingItem| clip_of(it))
                    =~= orig.subrange(0, taken - 1).map_values(|it: ListingItem| clip_of(it)).push(
                    clip_of(orig[taken - 1]),
                ));
            }
        }
        proof {
            assert(orig.subrange(0, taken) =~= orig);
        }
    }
}

/// The three possible outcomes of one listing-page request: a page of items
/// with an optional forward cursor, a well-formed rejection, or no response.
#[derive(Debug, PartialEq)]
pub enum PageOutcome {
    Page { items: Vec<ListingItem>, cursor: Option<String> },
    Rejected,
    NoResponse,
}

/// How a pagination walk ended: every page consumed, or truncated by a
/// rejected or unanswered request (a degraded success, not a failure).
#[derive(Debug, Clone, Copy, PartialEq, Eq, Structural)]
pub enum FetchEnd {
    Complete,
    Degraded,
}

/// What the fetcher does after one page: request the next page starting at
/// the given cursor, or stop.
#[derive(Debug, PartialEq)]
pub enum PageStep {
    Continue(String),
    Done(FetchEnd),
}

/// Advances the pagination walk by one page outcome. An empty page or a page
/// without a forward cursor completes the walk; a rejection or a missing
/// response degrades it, keeping everything accumulated so far; otherwise the
/// items are appended and the walk continues at the returned cursor.
pub fn clips_page_step(clips: &mut Clips, outcome: PageOutcome) -> (r: PageStep)
    ensures
        match outcome {
            PageOutcome::Page { items, cursor } => {
                if items@.len() == 0 {
                    &&& *final(clips) == *old(clips)
                    &&& r == PageStep::Done(FetchEnd::Complete)
                } else {
                    &&& final(clips).clips@ == old(clips).clips@ + items@.map_values(
                        |it: ListingItem| clip_of(it),
                    )
                    &&& match cursor {
                        Some(c) => r == PageStep::Continue(c),
                        None => r == PageStep::Done(FetchEnd::Complete),
                    }
                }
            },
            PageOutcome::Rejected => {
                &&& *final(clips) == *old(clips)
                &&& r == PageStep::Done(FetchEnd::Degraded)
            },
            PageOutcome::NoResponse => {
                &&& *final(clips) == *old(clips)
                &&& r == PageStep::Done(FetchEnd::Degraded)
            },
        },
{
    match outcome {
        PageOutcome::Page { items, cursor } => {
            if items.len() == 0 {
                return PageStep::Done(FetchEnd::Complete);
            }
            clips.append_from_data(items);
            match cursor {
                Some(c) => PageStep::Continue(c),
                None => PageStep::Done(FetchEnd::Complete),
            }
        },
        PageOutcome::Rejected => PageStep::Done(FetchEnd::Degraded),
        PageOutcome::NoResponse => PageStep::Done(FetchEnd::Degraded),
    }
}

/// The records and ending that the pagination walk produces from the page
/// outcomes `pages[i..]`, consumed in order until a stopping page. A walk
/// that consumes every supplied outcome while still asking for more counts
/// as complete: the caller supplies a terminal page.
pub open spec fn collected_from(pages: Seq<PageOutcome>, i: int) -> (Seq<ClipInfo>, FetchEnd)
    decreases pages.len() - i,
{
    if i < 0 || i >= pages.len() {
        (Seq::<ClipInfo>::empty(), FetchEnd::Complete)
    } else {
        match pages[i] {
            PageOutcome::Page { items, cursor } => {
                if items@.len() == 0 {
                    (Seq::<ClipInfo>::empty(), FetchEnd::Complete)
                } else {
                    let conv = items@.map_values(|it: ListingItem| clip_of(it));
                    if cursor is Some {
                        let rest = collected_from(pages, i + 1);
                        (conv + rest.0, rest.1)
                    } else {
                        (conv, FetchEnd::Complete)
                    }
                }
            },
            PageOutcome::Rejected => (Seq::<ClipInfo>::empty(), FetchEnd::Degraded),
            PageOutcome::NoResponse => (Seq::<ClipInfo>::empty(), FetchEnd::Degraded),
        }
    }
}

/// What a whole pagination walk over `pages` yields.
pub open spec fn collected(pages: Seq<PageOutcome>) -> (Seq<ClipInfo>, FetchEnd) {
    collected_from(pages, 0)
}

/// Walks a supplied sequence of page outcomes exactly as the fetcher walks
/// the live endpoint: pages are consumed in order until one of them stops
/// the walk, and the records accumulate in upstream order.
pub fn collect_pages(pages: Vec<PageOutcome>) -> (r: (Clips, FetchEnd))
    ensures
        r.0.clips@ == collected(pages@).0,
        r.1 == collected(pages@).1,
{
    let ghost orig = pages@;
    let mut queue = pages;
    let mut clips = Clips::default();
    let ghost mut i: int = 0;
    while queue.len() > 0
        invariant
            orig == pages@,
            0 <= i <= orig.len(),
            queue@ == orig.subrange(i, orig.len() as int),
            collected(orig).0 == clips.clips@ + collected_from(orig, i).0,
            collected(orig).1 == collected_from(orig, i).1,
        decreases queue@.len(),
    {
        let outcome = queue.remove(0);
        proof {
            assert(orig.subrange(i, orig.len() as int).remove(0) =~= orig.subrange(
                i + 1,
                orig.len() as int,
            ));
            assert(outcome == orig[i]);
        }
        let ghost pre = clips.clips@;
        match clips_page_step(&mut clips, outcome) {
            PageStep::Continue(_) => {
                proof {
                    i = i + 1;
                    assert(collected(orig).0 == clips.clips@ + collected_from(orig, i).0) by {
                        assert(pre + collected_from(orig, i - 1).0 =~= clips.clips@
                            + collected_from(orig, i).0);
                    }
                }
            },
            PageStep::Done(end) => {
                proof {
                    match orig[i] {
                        PageOutcome::Page { items, cursor } => {
                            if items@.len() == 0 {
                                assert(collected_from(orig, i).0 =~= Seq::<ClipInfo>::empty());
                                assert(collected_from(orig, i).1 == FetchEnd::Complete);
                            } else {
                                assert(cursor is None);
                                assert(collected_from(orig, i).0 == items@.map_values(
                                    |it: ListingItem| clip_of(it),
                                ));
                                assert(collected_from(orig, i).1 == FetchEnd::Complete);
                            }
                        },
                        PageOutcome::Rejected => {
                            assert(collected_from(orig, i).1 == FetchEnd::Degraded);
                        },
                        PageOutcome::NoResponse => {
                            assert(collected_from(orig, i).1 == FetchEnd::Degraded);
                        },
                    }
                    assert(collected(orig).0 =~= clips.clips@);
                    assert(collected(orig).1 == end);
                }
                return (clips, end);
            },
        }
    }
    proof {
        assert(collected(orig).0 =~= clips.clips@);
    }
    (clips, FetchEnd::Complete)
}

/// Why a metadata fetch could not even begin. All three are fatal for the
/// operation: the caller reports them and exits non-zero.
#[derive(Debug, Clone, Copy, PartialEq, Eq, Structural)]
pub enum LookupError {
    NoSuchUser,
    Rejected,
    NoResponse,
}

/// The three possible outcomes of the user-name lookup request: the matching
/// identifiers (possibly none, possibly several), a well-formed rejection,
/// or no response.
#[derive(Debug, PartialEq)]
pub enum LookupOutcome {
    Matches(Vec<String>),
    Rejected,
    NoResponse,
}

/// Picks the stable identifier out of a lookup outcome. Zero matches is a
/// fatal "no such user"; several matches deterministically yield the first,
/// in upstream order (the caller may log a warning).
pub fn user_lookup_step(outcome: LookupOutcome) -> (r: Result<String, LookupError>)
    ensures
        match outcome {
            LookupOutcome::Matches(ids) => {
                if ids@.len() == 0 {
                    r == Err::<String, LookupError>(LookupError::NoSuchUser)
                } else {
                    r == Ok::<String, LookupError>(ids@[0])
                }
            },
            LookupOutcome::Rejected => r == Err::<String, LookupError>(LookupError::Rejected),
            LookupOutcome::NoResponse => r == Err::<String, LookupError>(LookupError::NoResponse),
        },
{
    match outcome {
        LookupOutcome::Matches(ids) => {
            let mut ids = ids;
            if ids.len() == 0 {
                Err(LookupError::NoSuchUser)
            } else {
                Ok(ids.remove(0))
            }
        },
        LookupOutcome::Rejected => Err(LookupError::Rejected),
        LookupOutcome::NoResponse => Err(LookupError::NoResponse),
    }
}

/// The converted records of one page outcome: empty unless it is a page.
pub open spec fn page_items(p: PageOutcome) -> Seq<ClipInfo> {
    match p {
        PageOutcome::Page { items, .. } => items@.map_values(|it: ListingItem| clip_of(it)),
        PageOutcome::Rejected => Seq::<ClipInfo>::empty(),
        PageOutcome::NoResponse => Seq::<ClipInfo>::empty(),
    }
}

/// The records of a run of page outcomes, concatenated in order.
pub open spec fn items_of_pages(pages: Seq<PageOutcome>) -> Seq<ClipInfo>
    decreases pages.len(),
{
    if pages.len() == 0 {
        Seq::<ClipInfo>::empty()
    } else {
        page_items(pages[0]) + items_of_pages(pages.drop_first())
    }
}

/// A page that keeps the walk going: at least one item and a forward cursor.
pub open spec fn continuing_page(p: PageOutcome) -> bool {
    match p {
        PageOutcome::Page { items, cursor } => items@.len() >= 1 && cursor is Some,
        PageOutcome::Rejected => false,
        PageOutcome::NoResponse => false,
    }
}

/// Pagination termination: when the walk meets a run of pages that each have
/// items and a forward cursor, and then a page with zero items, it returns
/// exactly the items of the non-empty pages, concatenated in their original
/// per-page order, and ends complete.
pub proof fn lemma_pagination_termination(pages: Seq<PageOutcome>)
    requires
        pages.len() >= 1,
        forall|j: int| 0 <= j < pages.len() - 1 ==> continuing_page(#[trigger] pages[j]),
        pages[pages.len() - 1] matches PageOutcome::Page { items, .. } && items@.len() == 0,
    ensures
        collected(pages).0 == items_of_pages(pages.subrange(0, pages.len() - 1)),
        collected(pages).1 == FetchEnd::Complete,
{
    lemma_terminated_run(pages, 0);
}

proof fn lemma_terminated_run(pages: Seq<PageOutcome>, i: int)
    requires
        pages.len() >= 1,
        0 <= i <= pages.len() - 1,
        forall|j: int| i <= j < pages.len() - 1 ==> continuing_page(#[trigger] pages[j]),
        pages[pages.len() - 1] matches PageOutcome::Page { items, .. } && items@.len() == 0,
    ensures
        collected_from(pages, i).0 == items_of_pages(pages.subrange(i, pages.len() - 1)),
        collected_from(pages, i).1 == FetchEnd::Complete,
    decreases pages.len() - i,
{
    let last = pages.len() - 1;
    if i == last {
        assert(pages.subrange(i, last) =~= Seq::<PageOutcome>::empty());
    } else {
        lemma_terminated_run(pages, i + 1);
        let run = pages.subrange(i, last);
        assert(run.drop_first() =~= pages.subrange(i + 1, last));
        assert(run[0] == pages[i]);
        assert(collected_from(pages, i).0 =~= items_of_pages(run));
    }
}

/// Degraded fetch: when the walk meets a run of pages that each have items
/// and a forward cursor, and then a rejected or unanswered request, it
/// returns exactly the items of the pages before the failure, in order, and
/// ends degraded — the failure truncates the listing without discarding it.
pub proof fn lemma_degraded_fetch(pages: Seq<PageOutcome>, k: int)
    requires
        0 <= k < pages.len(),
        forall|j: int| 0 <= j < k ==> continuing_page(#[trigger] pages[j]),
        pages[k] is Rejected || pages[k] is NoResponse,
    ensures
        collected(pages).0 == items_of_pages(pages.subrange(0, k)),
        collected(pages).1 == FetchEnd::Degraded,
{
    lemma_degraded_run(pages, 0, k);
}

proof fn lemma_degraded_run(pages: Seq<PageOutcome>, i: int, k: int)
    requires
        0 <= i <= k < pages.len(),
        forall|j: int| i <= j < k ==> continuing_page(#[trigger] pages[j]),
        pages[k] is Rejected || pages[k] is NoResponse,
    ensures
        collected_from(pages, i).0 == items_of_pages(pages.subrange(i, k)),
        collected_from(pages, i).1 == FetchEnd::Degraded,
    decreases k - i,
{
    if i == k {
        assert(pages.subrange(i, k) =~= Seq::<PageOutcome>::empty());
    } else {
        lemma_degraded_run(pages, i + 1, k);
        let run = pages.subrange(i, k);
        assert(run.drop_first() =~= pages.subrange(i + 1, k));
        assert(run[0] == pages[i]);
        assert(collected_from(pages, i).0 =~= items_of_pages(run));
    }
}

} // verus!
