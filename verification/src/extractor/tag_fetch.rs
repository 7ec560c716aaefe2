//! Tag downloads: posts fetched page after page and handed on as they come.
//! The caller fetches each page the download asks for, sends on the posts
//! each step gives, and hands the next page to the next step.
use vstd::prelude::*;

use crate::blacklist::{
    accepted_by, lemma_filter_step, lemma_kept_is_accepted, lemma_posts_view_push, BlacklistFilter,
};
use crate::error::ExtractorError;
use crate::extractor::search::{checked_position, limit_reached, page_position, position_fits};
use crate::extractor::{PostExtractor, SiteApi};
use crate::post::{posts_view, Post, PostView};
use crate::text::{str_eq, strings_view};

verus! {

/// Whether one of the post's tags has the text `tag`.
pub open spec fn carries_tag(p: PostView, tag: Seq<char>) -> bool {
    exists|j: int| 0 <= j < p.tags.len() && #[trigger] p.tags[j].text == tag
}

/// Whether the post carries every one of the tags `required`.
pub open spec fn has_all_tags(p: PostView, required: Seq<Seq<char>>) -> bool {
    forall|i: int| 0 <= i < required.len() ==> carries_tag(p, #[trigger] required[i])
}

pub open spec fn carries_all(required: Seq<Seq<char>>) -> spec_fn(PostView) -> bool {
    |p: PostView| has_all_tags(p, required)
}

/// The posts of `s` that carry every required tag, where tags are required.
pub open spec fn with_required_tags(s: Seq<PostView>, required: Seq<Seq<char>>) -> Seq<PostView> {
    if required.len() > 0 {
        s.filter(carries_all(required))
    } else {
        s
    }
}

/// Whether the post carries the tag.
fn post_has_tag(p: &Post, tag: &str) -> (r: bool)
    ensures
        r == carries_tag(p@, tag@),
{
    let mut j: usize = 0;
    while j < p.tags.len()
        invariant
            0 <= j <= p.tags.len(),
            forall|k: int| 0 <= k < j ==> #[trigger] p@.tags[k].text != tag@,
        decreases p.tags.len() - j,
    {
        assert(p@.tags[j as int] == p.tags@[j as int]@);
        if str_eq(p.tags[j].tag(), tag) {
            return true;
        }
        j += 1;
    }
    false
}

/// Whether the post carries every required tag.
fn post_has_all_tags(p: &Post, required: &Vec<String>) -> (r: bool)
    ensures
        r == has_all_tags(p@, strings_view(required@)),
{
    let ghost req = strings_view(required@);
    let mut i: usize = 0;
    while i < required.len()
        invariant
            0 <= i <= required.len(),
            req == strings_view(required@),
            forall|k: int| 0 <= k < i ==> carries_tag(p@, #[trigger] req[k]),
        decreases required.len() - i,
    {
        assert(req[i as int] == required@[i as int]@);
        if !post_has_tag(p, required[i].as_str()) {
            return false;
        }
        i += 1;
    }
    true
}

/// Keeps the posts that carry every required tag, in order.
fn keep_with_tags(list: Vec<Post>, required: &Vec<String>) -> (r: Vec<Post>)
    ensures
        posts_view(r@) == posts_view(list@).filter(carries_all(strings_view(required@))),
{
    let ghost input = posts_view(list@);
    let ghost req = strings_view(required@);
    let mut out: Vec<Post> = Vec::new();
    for p in it: list
        invariant
            posts_view(it.seq()) == input,
            req == strings_view(required@),
            posts_view(out@) == input.take(it.index() as int).filter(carries_all(req)),
    {
        proof {
            assert(input[it.index() as int] == p@);
            lemma_filter_step(input, it.index() as int, carries_all(req));
            lemma_posts_view_push(out@, p);
        }
        if post_has_all_tags(&p, required) {
            out.push(p);
        }
    }
    assert(input.take(input.len() as int) =~= input);
    out
}

/// What a tag download does after a page, once it has sent its posts.
pub enum TagNext {
    /// Wait `delay_ms` milliseconds (if given), fetch the given page of
    /// posts asking for `limit` posts, and hand the result to the next step.
    Fetch { page: u16, limit: Option<u16>, delay_ms: Option<u64> },
    /// The download is over, with this result: the extractor's count of
    /// removed posts.
    Done(Result<u64, ExtractorError>),
    /// The number of the page to fetch next, or the count of removed
    /// posts, does not fit its integer type: the download cannot go on, and
    /// ends as an arithmetic overflow does.
    Overflow,
}

/// One step of a tag download: the posts to send on, in order, and what
/// comes next.
pub struct TagStep {
    pub send: Vec<Post>,
    pub next: TagNext,
}

/// A tag download between two pages.
pub struct TagFetch {
    start_page: Option<u16>,
    limit: Option<u16>,
    page: u16,
    page_limit: u16,
    filtering: bool,
    filter: BlacklistFilter,
    has_posts: bool,
    sent: u16,
}

impl TagFetch {
    pub closed spec fn spec_start_page(&self) -> Option<u16> {
        self.start_page
    }

    /// The number of posts to send, if limited.
    pub closed spec fn spec_limit(&self) -> Option<u16> {
        self.limit
    }

    /// The page being fetched, counting from 1.
    pub closed spec fn spec_page(&self) -> u16 {
        self.page
    }

    /// The most pages the download fetches.
    pub closed spec fn spec_page_limit(&self) -> u16 {
        self.page_limit
    }

    /// Whether pages pass through the filter.
    pub closed spec fn spec_filtering(&self) -> bool {
        self.filtering
    }

    pub closed spec fn spec_filter(&self) -> BlacklistFilter {
        self.filter
    }

    /// Whether a page has kept posts so far.
    pub closed spec fn spec_has_posts(&self) -> bool {
        self.has_posts
    }

    /// The number of posts sent so far towards the limit; without a limit
    /// nothing is counted.
    pub closed spec fn spec_sent(&self) -> u16 {
        self.sent
    }

    pub closed spec fn wf(&self) -> bool {
        &&& self.page >= 1
        &&& position_fits(self.start_page, self.page)
        &&& self.filter.wf()
        &&& self.limit matches Some(n) ==> self.sent <= n
    }

    /// What is kept of a page (already narrowed to the required tags).
    pub open spec fn kept_of(&self, page: Seq<PostView>) -> Seq<PostView> {
        if self.spec_filtering() {
            self.spec_filter().kept(page)
        } else {
            page
        }
    }

    /// How many posts of a page the filter counts as removed.
    pub open spec fn removed_of(&self, page: Seq<PostView>) -> int {
        if self.spec_filtering() {
            self.spec_filter().removed_count(page)
        } else {
            0
        }
    }

    /// The posts sent of the kept posts: as many as the limit leaves room
    /// for, or all of them.
    pub open spec fn to_send(&self, kept: Seq<PostView>) -> Seq<PostView> {
        match self.spec_limit() {
            Some(n) => if self.spec_sent() >= n {
                Seq::empty()
            } else if kept.len() <= n - self.spec_sent() {
                kept
            } else {
                kept.take(n - self.spec_sent())
            },
            None => kept,
        }
    }

    /// The count of posts sent towards the limit once `kept` are sent.
    pub open spec fn sent_after(&self, kept: Seq<PostView>) -> int {
        match self.spec_limit() {
            Some(_) => self.spec_sent() + self.to_send(kept).len(),
            None => self.spec_sent() as int,
        }
    }

    /// Whether, with `sent` posts sent in all, the download goes on to the
    /// next page: the limit is not reached and pages are left.
    pub open spec fn goes_on(&self, sent: int) -> bool {
        !limit_reached(self.spec_limit(), sent) && self.spec_page() < self.spec_page_limit()
    }
}

/// Every post a tag download sends of a page carries every tag of the post
/// queue, and passes the filter where the download filters.
pub proof fn lemma_sent_posts_qualify(
    fetch: TagFetch,
    page: Seq<PostView>,
    required: Seq<Seq<char>>,
    i: int,
)
    requires
        0 <= i < fetch.to_send(fetch.kept_of(with_required_tags(page, required))).len(),
    ensures
        has_all_tags(fetch.to_send(fetch.kept_of(with_required_tags(page, required)))[i], required),
        fetch.spec_filtering() ==> accepted_by(
            fetch.spec_filter(),
            fetch.to_send(fetch.kept_of(with_required_tags(page, required)))[i],
        ),
{
    let n = with_required_tags(page, required);
    let k = fetch.kept_of(n);
    let t = fetch.to_send(k);
    assert(t[i] == k[i]);
    let x = k[i];
    if fetch.spec_filtering() {
        let acc = |p: PostView| accepted_by(fetch.spec_filter(), p);
        lemma_kept_is_accepted(fetch.spec_filter(), n);
        n.lemma_filter_pred(acc, i);
        assert(k.contains(x));
        n.lemma_filter_contains_rev(acc, x);
    }
    assert(n.contains(x));
    if required.len() > 0 {
        let j = choose|j: int| 0 <= j < n.len() && n[j] == x;
        page.lemma_filter_pred(carries_all(required), j);
    }
}

/// The result of a download that did or did not keep posts.
pub open spec fn tag_outcome(has_posts: bool, total_removed: u64) -> Result<u64, ExtractorError> {
    if has_posts {
        Ok(total_removed)
    } else {
        Err(ExtractorError::ZeroPosts)
    }
}

/// Whether `next` is the outcome `o`.
pub open spec fn ends_with(next: TagNext, o: Result<u64, ExtractorError>) -> bool {
    match o {
        Ok(n) => next matches TagNext::Done(Ok(m)) && m == n,
        Err(_) => next matches TagNext::Done(Err(ExtractorError::ZeroPosts)),
    }
}

impl<S: SiteApi> PostExtractor<S> {
    /// The posts of a page that a tag download keeps, before they are sent.
    pub open spec fn tag_page_kept(&self, fetch: TagFetch, page: Seq<PostView>) -> Seq<PostView> {
        fetch.kept_of(with_required_tags(page, self.spec_queue_tags()))
    }

    /// Starts a tag download from `start_page` (page 1 if none), sending up
    /// to `limit` posts. Posts must carry every tag of the post queue; the
    /// download filters with the blacklist configuration, the excluded tags,
    /// the ratings, the forced extension and, unless videos are mapped,
    /// animation, where blacklisting is on, ratings are selected or tags are
    /// excluded. A start page whose number overflows ends at once in
    /// `Overflow`, a start at page 0 in `ZeroPage`.
    pub fn tag_fetch_start(&self, start_page: Option<u16>, limit: Option<u16>) -> (r: (
        TagFetch,
        TagNext,
    ))
        ensures
            position_fits(start_page, 1) ==> r.0.wf(),
            !position_fits(start_page, 1) ==> r.1 is Overflow,
            r.0.spec_start_page() == start_page,
            r.0.spec_limit() == limit,
            r.0.spec_page() == 1,
            r.0.spec_page_limit() == self.spec_site().spec_page_limit(),
            !r.0.spec_has_posts(),
            r.0.spec_sent() == 0,
            r.0.spec_filtering() == !(self.spec_blacklist_disabled() && self.spec_ratings().len()
                == 0 && self.spec_excluded_tags().len() == 0),
            r.0.spec_filter().made_from(
                self.spec_blacklist_config().sections(),
                self.spec_server().server,
                self.spec_excluded_tags(),
                self.spec_ratings(),
                self.spec_blacklist_disabled(),
                !self.spec_map_videos(),
                self.spec_extension(),
            ),
            position_fits(start_page, 1) && page_position(start_page, 1) == 0 ==> r.1 matches TagNext::Done(
                Err(ExtractorError::ZeroPage),
            ),
            position_fits(start_page, 1) && page_position(start_page, 1) != 0 ==> (r.1 matches TagNext::Fetch {
                page,
                limit: l,
                delay_ms,
            } && page == page_position(start_page, 1) && l == limit && delay_ms is None),
    {
        let filter = BlacklistFilter::new(
            &self.global_blacklist,
            self.server_cfg.server,
            self.user_excluded_tags.as_slice(),
            self.download_ratings.as_slice(),
            self.disable_blacklist,
            !self.map_videos,
            self.selected_extension,
        );
        let filtering = !(self.disable_blacklist && self.download_ratings.len() == 0
            && self.user_excluded_tags.len() == 0);
        let fetch = TagFetch {
            start_page,
            limit,
            page: 1,
            page_limit: self.site_api.full_search_page_limit(),
            filtering,
            filter,
            has_posts: false,
            sent: 0,
        };
        let position = match checked_position(start_page, 1) {
            Some(p) => p,
            None => {
                return (fetch, TagNext::Overflow);
            },
        };
        if position == 0 {
            (fetch, TagNext::Done(Err(ExtractorError::ZeroPage)))
        } else {
            (fetch, TagNext::Fetch { page: position, limit, delay_ms: None })
        }
    }

    /// Takes in the fetched page of a tag download. A failed fetch ends the
    /// download with its error. An empty page ends it: with the count of
    /// removed posts if posts were kept before, else `ZeroPosts`. Otherwise
    /// the page is narrowed to the posts that carry every tag of the post
    /// queue, passes through the filter (when the download filters; its
    /// count of removed posts adds to the extractor's), and as many posts as
    /// the limit leaves room for are sent (and counted towards it). The
    /// download then goes on to the next page unless the limit of sent posts
    /// or the page limit is reached; when it ends, it ends as an empty page
    /// does. One whose count of removed posts or next page number overflows
    /// ends in `Overflow`.
    pub fn tag_fetch_step(&mut self, fetch: &mut TagFetch, fetched: Result<Vec<Post>, ExtractorError>) -> (r:
        TagStep)
        requires
            old(fetch).wf(),
        ensures
            final(self).same_settings(&*old(self)),
            final(fetch).spec_start_page() == old(fetch).spec_start_page(),
            final(fetch).spec_limit() == old(fetch).spec_limit(),
            final(fetch).spec_page_limit() == old(fetch).spec_page_limit(),
            final(fetch).spec_filtering() == old(fetch).spec_filtering(),
            final(fetch).spec_filter() == old(fetch).spec_filter(),
            r.next is Fetch ==> final(fetch).spec_page() <= final(fetch).spec_page_limit(),
            final(fetch).spec_limit() matches Some(n) ==> final(fetch).spec_sent() <= n,
            match fetched {
                Err(e) => r.send@.len() == 0 && (r.next matches TagNext::Done(Err(e2)) && e2 == e)
                    && final(self).spec_total_removed() == old(self).spec_total_removed(),
                Ok(v) => if v@.len() == 0 {
                    &&& r.send@.len() == 0
                    &&& final(self).spec_total_removed() == old(self).spec_total_removed()
                    &&& ends_with(
                        r.next,
                        tag_outcome(old(fetch).spec_has_posts(), old(self).spec_total_removed()),
                    )
                } else {
                    let st = *old(fetch);
                    let narrowed = with_required_tags(posts_view(v@), old(self).spec_queue_tags());
                    let kept = st.kept_of(narrowed);
                    let sent = st.sent_after(kept);
                    let has_posts = st.spec_has_posts() || kept.len() > 0;
                    if old(self).spec_total_removed() + st.removed_of(narrowed) > u64::MAX {
                        &&& r.send@.len() == 0
                        &&& final(self).spec_total_removed() == old(self).spec_total_removed()
                        &&& r.next is Overflow
                    } else {
                    &&& posts_view(r.send@) == st.to_send(kept)
                    &&& final(self).spec_total_removed() == old(self).spec_total_removed()
                        + st.removed_of(narrowed)
                    &&& final(fetch).spec_sent() == sent
                    &&& final(fetch).spec_has_posts() == has_posts
                    &&& if st.goes_on(sent) {
                        &&& final(fetch).spec_page() == st.spec_page() + 1
                        &&& if position_fits(st.spec_start_page(), final(fetch).spec_page()) {
                            &&& final(fetch).wf()
                            &&& r.next matches TagNext::Fetch { page, limit, delay_ms }
                            &&& page == page_position(st.spec_start_page(), final(fetch).spec_page())
                            &&& limit == st.spec_limit()
                            &&& delay_ms == old(self).spec_site().spec_page_delay_ms()
                        } else {
                            r.next is Overflow
                        }
                    } else {
                        ends_with(r.next, tag_outcome(has_posts, final(self).spec_total_removed()))
                    }
                    }
                },
            },
    {
        let posts = match fetched {
            Err(e) => {
                return TagStep { send: Vec::new(), next: TagNext::Done(Err(e)) };
            },
            Ok(v) => v,
        };
        if posts.len() == 0 {
            let next = if fetch.has_posts {
                TagNext::Done(Ok(self.total_removed))
            } else {
                TagNext::Done(Err(ExtractorError::ZeroPosts))
            };
            return TagStep { send: Vec::new(), next };
        }
        let narrowed = if self.tags_for_post_queue.len() > 0 {
            keep_with_tags(posts, &self.tags_for_post_queue)
        } else {
            posts
        };
        let mut list = if fetch.filtering {
            let (removed, kept) = fetch.filter.filter(narrowed);
            match self.total_removed.checked_add(removed) {
                Some(t) => {
                    self.total_removed = t;
                },
                None => {
                    return TagStep { send: Vec::new(), next: TagNext::Overflow };
                },
            }
            kept
        } else {
            narrowed
        };
        if list.len() > 0 {
            fetch.has_posts = true;
        }
        let ghost kept_view = posts_view(list@);
        match fetch.limit {
            Some(n) => {
                if fetch.sent >= n {
                    list.truncate(0);
                } else {
                    list.truncate((n - fetch.sent) as usize);
                }
                assert(posts_view(list@) =~= fetch.to_send(kept_view));
                fetch.sent = fetch.sent + list.len() as u16;
            },
            None => {
                assert(posts_view(list@) =~= fetch.to_send(kept_view));
            },
        }
        let reached = match fetch.limit {
            Some(n) => fetch.sent >= n,
            None => false,
        };
        if reached || fetch.page >= fetch.page_limit {
            let next = if fetch.has_posts {
                TagNext::Done(Ok(self.total_removed))
            } else {
                TagNext::Done(Err(ExtractorError::ZeroPosts))
            };
            return TagStep { send: list, next };
        }
        fetch.page = fetch.page + 1;
        let position = match checked_position(fetch.start_page, fetch.page) {
            Some(p) => p,
            None => {
                return TagStep { send: list, next: TagNext::Overflow };
            },
        };
        TagStep {
            send: list,
            next: TagNext::Fetch {
                page: position,
                limit: fetch.limit,
                delay_ms: self.site_api.full_search_api_call_delay(),
            },
        }
    }
}

} // verus!
