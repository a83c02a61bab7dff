//! From a folder of files to the ordered list of posts.
//!
//! A catalog is built in two passes around the caller's work. The first
//! picks, among the names found in the posts folder, those that are posts.
//! The caller then resolves a creation time for each of them. The second
//! pass drops the posts whose resolution failed and orders the others,
//! newest first.

use vstd::prelude::*;
use vstd::string::StringExecFns;
use crate::filename::{is_markdown_name, post_stem, stem_of_post};
use crate::pages::{PageError, Status};
use crate::resolver::ResolveError;

verus! {

/// What every link to a post starts with.
pub const LINK_PREFIX: &'static str = "post/";

/// What looking into the posts folder gave.
#[derive(Debug, Clone, PartialEq, Eq)]
pub enum Listing {
    /// The folder does not exist.
    Missing,
    /// The folder exists but cannot be read; the text is the cause.
    Unreadable(String),
    /// The names of the entries of the folder, in the order they were found.
    Entries(Vec<Vec<u8>>),
}

/// A directory entry that is a post, before its creation time is known.
#[derive(Debug, Clone, PartialEq, Eq)]
pub struct Candidate {
    /// Position of the entry in the listing.
    pub index: usize,
    /// Identifier of the post: the file name without its extension.
    pub stem: String,
}

/// Mathematical content of a [`Candidate`].
pub struct CandidateView {
    pub index: int,
    pub stem: Seq<char>,
}

impl View for Candidate {
    type V = CandidateView;

    open spec fn view(&self) -> CandidateView {
        CandidateView { index: self.index as int, stem: self.stem@ }
    }
}

/// A post together with the outcome of resolving its creation time.
#[derive(Debug, PartialEq, Eq)]
pub struct Dated {
    /// Identifier of the post.
    pub stem: String,
    /// The creation time, or why none was found.
    pub resolution: Result<i64, ResolveError>,
}

/// One post of the catalog.
#[derive(Debug, Clone, PartialEq, Eq)]
pub struct PostEntry {
    /// Identifier of the post, used as its slug.
    pub stem: String,
    /// Creation time in seconds since the epoch.
    pub timestamp: i64,
    /// Where the post is linked to, relative to the index page.
    pub link: String,
}

/// Mathematical content of a [`PostEntry`].
pub struct Post {
    pub stem: Seq<char>,
    pub timestamp: i64,
    pub link: Seq<char>,
}

impl View for PostEntry {
    type V = Post;

    open spec fn view(&self) -> Post {
        Post { stem: self.stem@, timestamp: self.timestamp, link: self.link@ }
    }
}

/// The names of a listing as sequences of bytes.
pub open spec fn names_of(entries: Seq<Vec<u8>>) -> Seq<Seq<u8>> {
    Seq::new(entries.len(), |i: int| entries[i]@)
}

/// The contents of a list of candidates.
pub open spec fn candidates_view(candidates: Seq<Candidate>) -> Seq<CandidateView> {
    Seq::new(candidates.len(), |i: int| candidates[i]@)
}

/// The contents of a catalog.
pub open spec fn catalog_view(catalog: Seq<PostEntry>) -> Seq<Post> {
    Seq::new(catalog.len(), |i: int| catalog[i]@)
}

/// The posts among some file names: each name that stands for a post, with
/// its position and its stem, in the order of the names.
pub open spec fn candidates_of(names: Seq<Seq<u8>>) -> Seq<CandidateView>
    decreases names.len(),
{
    if names.len() == 0 {
        Seq::empty()
    } else {
        let earlier = candidates_of(names.drop_last());
        match post_stem(names.last()) {
            Some(stem) => earlier.push(CandidateView { index: names.len() - 1, stem }),
            None => earlier,
        }
    }
}

/// The link of the post with this stem.
pub open spec fn link_of(stem: Seq<char>) -> Seq<char> {
    LINK_PREFIX@ + stem
}

/// The catalog entry that a dated post stands for: none when its resolution
/// failed.
pub open spec fn post_of(stem: Seq<char>, resolution: Result<i64, ResolveError>) -> Option<Post> {
    match resolution {
        Ok(timestamp) => Some(Post { stem, timestamp, link: link_of(stem) }),
        Err(_) => None,
    }
}

/// The posts whose creation time was resolved, in the order they came.
pub open spec fn resolved_posts(dated: Seq<Dated>) -> Seq<Post> {
    dated.filter_map(|d: Dated| post_of(d.stem@, d.resolution))
}

/// Whether posts are ordered by creation time, newest first.
pub open spec fn newest_first(posts: Seq<Post>) -> bool {
    forall|i: int, j: int|
        0 <= i < j < posts.len() ==> #[trigger] posts[i].timestamp >= #[trigger] posts[j].timestamp
}

/// Whether posts are ordered by creation time, each strictly newer than the
/// next.
pub open spec fn strictly_newest_first(posts: Seq<Post>) -> bool {
    forall|i: int, j: int|
        0 <= i < j < posts.len() ==> #[trigger] posts[i].timestamp > #[trigger] posts[j].timestamp
}

/// Whether no two posts share a creation time.
pub open spec fn distinct_timestamps(posts: Seq<Post>) -> bool {
    forall|i: int, j: int|
        0 <= i < j < posts.len() ==> #[trigger] posts[i].timestamp != #[trigger] posts[j].timestamp
}

/// Picks the posts among the entries of the posts folder.
///
/// A missing folder holds no posts, which is no error. A folder that cannot
/// be read fails the whole request. Otherwise every entry whose extension is
/// `md` in any case, and whose stem is text, is a candidate.
pub fn select_posts(listing: &Listing) -> (selection: Result<Vec<Candidate>, PageError>)
    ensures
        match *listing {
            Listing::Missing => selection matches Ok(candidates) && candidates@.len() == 0,
            Listing::Unreadable(cause) => {
                &&& selection matches Err(error)
                &&& error.status == Status::InternalServerError
                &&& error.reason == cause
            },
            Listing::Entries(entries) => {
                &&& selection matches Ok(candidates)
                &&& candidates_view(candidates@) == candidates_of(names_of(entries@))
                &&& (forall|i: int|
                    0 <= i < entries@.len() ==> !is_markdown_name(#[trigger] entries@[i]@))
                    ==> candidates@.len() == 0
            },
        },
{
    match listing {
        Listing::Missing => Ok(Vec::new()),
        Listing::Unreadable(cause) => Err(
            PageError { status: Status::InternalServerError, reason: cause.clone() },
        ),
        Listing::Entries(entries) => {
            let mut candidates: Vec<Candidate> = Vec::new();
            let mut i: usize = 0;
            while i < entries.len()
                invariant
                    i <= entries@.len(),
                    candidates_view(candidates@) == candidates_of(
                        names_of(entries@).take(i as int),
                    ),
                decreases entries@.len() - i,
            {
                let ghost before = names_of(entries@).take(i as int);
                let ghost after = names_of(entries@).take(i + 1);
                assert(after.drop_last() =~= before);
                match stem_of_post(entries[i].as_slice()) {
                    Some(stem) => {
                        candidates.push(Candidate { index: i, stem });
                    },
                    None => {},
                }
                i = i + 1;
            }
            assert(names_of(entries@).take(i as int) =~= names_of(entries@));
            proof {
                if forall|i: int|
                    0 <= i < entries@.len() ==> !is_markdown_name(#[trigger] entries@[i]@) {
                    no_markdown_no_candidates(names_of(entries@));
                }
            }
            Ok(candidates)
        },
    }
}

/// Whether `at` is where a post of the given creation time goes: behind the
/// leading posts that are at least as new, in front of the first older one.
pub open spec fn is_insertion_point(posts: Seq<Post>, timestamp: i64, at: int) -> bool {
    &&& 0 <= at <= posts.len()
    &&& forall|k: int| 0 <= k < at ==> (#[trigger] posts[k]).timestamp >= timestamp
    &&& at < posts.len() ==> posts[at].timestamp < timestamp
}

/// Puts a post into a catalog, in front of the first post that is older.
///
/// A catalog that is ordered newest first stays so.
pub fn insert_post(catalog: &mut Vec<PostEntry>, entry: PostEntry)
    ensures
        exists|at: int|
            is_insertion_point(catalog_view(old(catalog)@), entry.timestamp, at) && catalog_view(
                final(catalog)@,
            ) == catalog_view(old(catalog)@).insert(at, entry@),
        catalog_view(final(catalog)@).to_multiset() == catalog_view(
            old(catalog)@,
        ).to_multiset().insert(entry@),
        newest_first(catalog_view(old(catalog)@)) ==> newest_first(catalog_view(final(catalog)@)),
{
    let ghost posts = catalog_view(catalog@);
    let mut at: usize = 0;
    while at < catalog.len() && catalog[at].timestamp >= entry.timestamp
        invariant
            at <= catalog@.len(),
            forall|k: int| 0 <= k < at ==> (#[trigger] catalog@[k]).timestamp >= entry.timestamp,
        decreases catalog@.len() - at,
    {
        at = at + 1;
    }
    assert(is_insertion_point(posts, entry.timestamp, at as int));
    catalog.insert(at, entry);
    proof {
        let grown = catalog_view(catalog@);
        assert(grown =~= posts.insert(at as int, entry@));
        vstd::seq_lib::to_multiset_insert(posts, at as int, entry@);
    }
}

/// Builds the catalog: the posts whose creation time was resolved, ordered
/// newest first.
///
/// A post whose resolution failed is left out, not listed under a made-up
/// date, so the catalog is as long as there are successes. Posts of equal
/// time come in no promised order; where all times differ, each post is
/// strictly newer than the next.
pub fn build_catalog(dated: &Vec<Dated>) -> (catalog: Vec<PostEntry>)
    ensures
        catalog_view(catalog@).to_multiset() == resolved_posts(dated@).to_multiset(),
        newest_first(catalog_view(catalog@)),
        catalog@.len() == dated@.filter(|d: Dated| d.resolution is Ok).len(),
        distinct_timestamps(resolved_posts(dated@)) ==> strictly_newest_first(
            catalog_view(catalog@),
        ),
{
    let mut catalog: Vec<PostEntry> = Vec::new();
    let mut i: usize = 0;
    let ghost keep = |d: Dated| post_of(d.stem@, d.resolution);
    assert(catalog_view(catalog@) =~= Seq::empty());
    while i < dated.len()
        invariant
            i <= dated@.len(),
            keep == (|d: Dated| post_of(d.stem@, d.resolution)),
            catalog_view(catalog@).to_multiset() == dated@.take(i as int).filter_map(
                keep,
            ).to_multiset(),
            newest_first(catalog_view(catalog@)),
        decreases dated@.len() - i,
    {
        let ghost before = dated@.take(i as int);
        let ghost after = dated@.take(i + 1);
        assert(after.drop_last() =~= before);
        match &dated[i].resolution {
            Ok(timestamp) => {
                let stem = dated[i].stem.clone();
                let mut link = LINK_PREFIX.to_owned();
                link.append(stem.as_str());
                let entry = PostEntry { stem, timestamp: *timestamp, link };
                proof {
                    vstd::seq_lib::to_multiset_build(before.filter_map(keep), entry@);
                    assert(after.filter_map(keep) =~= before.filter_map(keep).push(entry@));
                }
                insert_post(&mut catalog, entry);
            },
            Err(_) => {},
        }
        i = i + 1;
    }
    assert(dated@.take(i as int) =~= dated@);
    proof {
        vstd::seq_lib::to_multiset_len(catalog_view(catalog@));
        vstd::seq_lib::to_multiset_len(resolved_posts(dated@));
        failed_resolutions_left_out(dated@);
        if distinct_timestamps(resolved_posts(dated@)) {
            distinct_times_strict_order(catalog_view(catalog@), resolved_posts(dated@));
        }
    }
    catalog
}

/// Names of which none is a markdown file hold no candidate.
pub proof fn no_markdown_no_candidates(names: Seq<Seq<u8>>)
    requires
        forall|i: int| 0 <= i < names.len() ==> !is_markdown_name(#[trigger] names[i]),
    ensures
        candidates_of(names) == Seq::<CandidateView>::empty(),
    decreases names.len(),
{
    if names.len() > 0 {
        let earlier = names.drop_last();
        no_markdown_no_candidates(earlier);
    }
}

/// A folder that holds no markdown file gives an empty catalog: there is no
/// candidate, so nothing is dated, and nothing is listed.
pub proof fn no_markdown_no_posts(names: Seq<Seq<u8>>, dated: Seq<Dated>)
    requires
        forall|i: int| 0 <= i < names.len() ==> !is_markdown_name(#[trigger] names[i]),
        dated.len() == candidates_of(names).len(),
    ensures
        resolved_posts(dated) == Seq::<Post>::empty(),
{
    no_markdown_no_candidates(names);
}

/// Whether the name at position `index` is among the candidates.
pub open spec fn is_candidate(names: Seq<Seq<u8>>, index: int) -> bool {
    exists|k: int|
        0 <= k < candidates_of(names).len() && (#[trigger] candidates_of(names)[k]).index == index
}

/// The candidates are exactly the posts of the listing: every candidate is a
/// markdown file of the listing, named by its stem; every such file is a
/// candidate; and the candidates come in the order of the listing.
pub proof fn candidates_are_posts(names: Seq<Seq<u8>>)
    ensures
        candidates_of(names).len() <= names.len(),
        forall|i: int|
            0 <= i < names.len() && post_stem(#[trigger] names[i]) is Some ==> is_candidate(
                names,
                i,
            ),
        forall|k: int|
            0 <= k < candidates_of(names).len() ==> {
                let c = #[trigger] candidates_of(names)[k];
                0 <= c.index < names.len() && post_stem(names[c.index]) == Some(c.stem)
            },
        forall|k: int, l: int|
            0 <= k < l < candidates_of(names).len() ==> (#[trigger] candidates_of(names)[k]).index
                < (#[trigger] candidates_of(names)[l]).index,
    decreases names.len(),
{
    if names.len() > 0 {
        let earlier = names.drop_last();
        candidates_are_posts(earlier);
        assert forall|k: int| 0 <= k < candidates_of(earlier).len() implies {
            let c = #[trigger] candidates_of(earlier)[k];
            names[c.index] == earlier[c.index]
        } by {}
        assert forall|i: int|
            0 <= i < names.len() && post_stem(#[trigger] names[i]) is Some implies is_candidate(
            names,
            i,
        ) by {
            if i < earlier.len() {
                assert(earlier[i] == names[i]);
                let k = choose|k: int|
                    0 <= k < candidates_of(earlier).len() && (#[trigger] candidates_of(
                        earlier,
                    )[k]).index == i;
                assert(candidates_of(names)[k].index == i);
            } else {
                let k = candidates_of(names).len() - 1;
                assert(candidates_of(names)[k].index == i);
            }
        }
    }
}

/// Whether `post` is what one of the dated entries stands for, so that the
/// resolution of that entry succeeded with the creation time of the post.
pub open spec fn stems_from(post: Post, dated: Seq<Dated>) -> bool {
    exists|i: int|
        0 <= i < dated.len() && #[trigger] post_of(dated[i].stem@, dated[i].resolution) == Some(
            post,
        )
}

/// The catalog holds one post for each resolution that succeeded and none
/// for a resolution that failed: its length is the number of successes, and
/// every post of it stems from an entry whose resolution succeeded.
pub proof fn failed_resolutions_left_out(dated: Seq<Dated>)
    ensures
        resolved_posts(dated).len() == dated.filter(|d: Dated| d.resolution is Ok).len(),
        forall|k: int|
            0 <= k < resolved_posts(dated).len() ==> stems_from(
                #[trigger] resolved_posts(dated)[k],
                dated,
            ),
    decreases dated.len(),
{
    reveal(Seq::filter);
    if dated.len() > 0 {
        let earlier = dated.drop_last();
        failed_resolutions_left_out(earlier);
        assert forall|k: int| 0 <= k < resolved_posts(dated).len() implies stems_from(
            #[trigger] resolved_posts(dated)[k],
            dated,
        ) by {
            if k < resolved_posts(earlier).len() {
                assert(stems_from(resolved_posts(earlier)[k], earlier));
            }
        }
    }
}

/// Where the resolved posts have pairwise distinct creation times, a catalog
/// of them that is ordered newest first is ordered strictly: each post is
/// strictly newer than the next.
pub proof fn distinct_times_strict_order(catalog: Seq<Post>, resolved: Seq<Post>)
    requires
        catalog.to_multiset() == resolved.to_multiset(),
        newest_first(catalog),
        distinct_timestamps(resolved),
    ensures
        strictly_newest_first(catalog),
{
    assert(resolved.no_duplicates()) by {
        assert forall|a: int, b: int|
            0 <= a < resolved.len() && 0 <= b < resolved.len() && a != b implies resolved[a]
            != resolved[b] by {
            if b < a {
                assert(resolved[b].timestamp != resolved[a].timestamp);
            }
        }
    }
    resolved.lemma_multiset_has_no_duplicates();
    catalog.lemma_multiset_has_no_duplicates_conv();
    assert forall|i: int, j: int| 0 <= i < j < catalog.len() implies #[trigger] catalog[i].timestamp
        > #[trigger] catalog[j].timestamp by {
        vstd::seq_lib::to_multiset_contains(catalog, catalog[i]);
        vstd::seq_lib::to_multiset_contains(catalog, catalog[j]);
        vstd::seq_lib::to_multiset_contains(resolved, catalog[i]);
        vstd::seq_lib::to_multiset_contains(resolved, catalog[j]);
    }
}

} // verus!
