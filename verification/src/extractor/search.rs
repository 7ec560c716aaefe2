//! Full searches: page after page of posts, filtered and collected into one
//! queue. The caller fetches each page the search asks for and hands it to
//! the next step; the search decides what to keep and when to stop.
use vstd::prelude::*;

use crate::blacklist::{
    accepted_by, lemma_kept_posts_pass, lemma_reordered_posts_pass, BlacklistFilter,
};
use crate::error::ExtractorError;
use crate::extractor::{PostExtractor, SiteApi};
use crate::post::{posts_view, Post, PostQueue, PostView};
use crate::text::{clone_strings, strings_view};

verus! {

/// The page that the `page`-th page of a search (counting from 1) fetches:
/// `page` itself, or counted on from the start page.
pub open spec fn page_position(start_page: Option<u16>, page: u16) -> int {
    match start_page {
        Some(n) => page + n - 1,
        None => page as int,
    }
}

/// Whether the position of the `page`-th page is computed without overflow.
pub open spec fn position_fits(start_page: Option<u16>, page: u16) -> bool {
    match start_page {
        Some(n) => page + n <= u16::MAX,
        None => true,
    }
}

/// The position of the `page`-th page, or `None` where computing it
/// overflows 16 bits.
pub fn checked_position(start_page: Option<u16>, page: u16) -> (r: Option<u16>)
    requires
        page >= 1,
    ensures
        match r {
            Some(p) => position_fits(start_page, page) && p == page_position(start_page, page),
            None => !position_fits(start_page, page),
        },
{
    match start_page {
        Some(n) => if n <= u16::MAX - page {
            Some(page + n - 1)
        } else {
            None
        },
        None => Some(page),
    }
}

/// Whether `len` posts reach the limit, if there is one.
pub open spec fn limit_reached(limit: Option<u16>, len: int) -> bool {
    match limit {
        Some(n) => len >= n,
        None => false,
    }
}

/// What a full search asks of its caller next.
pub enum SearchStep {
    /// Wait `delay_ms` milliseconds (if given), fetch the given page of
    /// posts asking for `limit` posts, and hand the result to the next step.
    Fetch { page: u16, limit: Option<u16>, delay_ms: Option<u64> },
    /// The search is over, with this result.
    Done(Result<PostQueue, ExtractorError>),
    /// The number of the page to fetch next, or the count of removed
    /// posts, does not fit its integer type: the search cannot go on, and
    /// ends as an arithmetic overflow does.
    Overflow,
}

/// A full search between two pages.
pub struct FullSearch {
    start_page: Option<u16>,
    limit: Option<u16>,
    page: u16,
    page_limit: u16,
    filtering: bool,
    filter: BlacklistFilter,
    collected: Vec<Post>,
}

impl FullSearch {
    pub closed spec fn spec_start_page(&self) -> Option<u16> {
        self.start_page
    }

    /// The number of posts asked for, if any.
    pub closed spec fn spec_limit(&self) -> Option<u16> {
        self.limit
    }

    /// The page being fetched, counting from 1.
    pub closed spec fn spec_page(&self) -> u16 {
        self.page
    }

    /// The most pages the search fetches.
    pub closed spec fn spec_page_limit(&self) -> u16 {
        self.page_limit
    }

    /// Whether pages pass through the filter.
    pub closed spec fn spec_filtering(&self) -> bool {
        self.filtering
    }

    pub closed spec fn spec_filter(&self) -> BlacklistFilter {
        self.filter
    }

    /// The posts kept so far, in the order they came.
    pub closed spec fn spec_collected(&self) -> Seq<PostView> {
        posts_view(self.collected@)
    }

    pub closed spec fn wf(&self) -> bool {
        &&& self.page >= 1
        &&& position_fits(self.start_page, self.page)
        &&& self.filter.wf()
        &&& self.filtering ==> forall|i: int|
            0 <= i < posts_view(self.collected@).len() ==> accepted_by(
                self.filter,
                #[trigger] posts_view(self.collected@)[i],
            )
    }

    /// Whether a page of `count` posts ends the search with nothing to add:
    /// the page is empty, and posts were kept before or it is not the first
    /// page.
    pub open spec fn stops_early(&self, count: nat) -> bool {
        count == 0 && (self.spec_collected().len() > 0 || self.spec_page() > 1)
    }

    /// What is kept of a page.
    pub open spec fn kept_of(&self, page: Seq<PostView>) -> Seq<PostView> {
        if self.spec_filtering() {
            self.spec_filter().kept(page)
        } else {
            page
        }
    }

    /// How many posts of a page the filter counts as removed.
    pub open spec fn removed_of(&self, page: Seq<PostView>) -> int {
        if self.spec_filtering() {
            self.spec_filter().removed_count(page)
        } else {
            0
        }
    }

    /// Whether, after keeping `kept` posts in all, the search goes on to the
    /// next page: the site does not call this page the last (it may only
    /// after the first page), the limit is not reached and pages are left.
    pub open spec fn goes_on(&self, site_stops: bool, kept: int) -> bool {
        &&& !(site_stops && self.spec_page() > 1)
        &&& !limit_reached(self.spec_limit(), kept)
        &&& self.spec_page() < self.spec_page_limit()
    }
}

impl<S: SiteApi> PostExtractor<S> {
    /// The tags a full search blacklists: the excluded tags, and the tags of
    /// the user's profile when authenticated.
    pub open spec fn search_blacklist_tags(&self) -> Seq<Seq<char>> {
        let profile = strings_view(self.spec_auth_config().spec_user_data().blacklisted_tags@);
        if self.spec_is_auth() && profile.len() > 0 {
            self.spec_excluded_tags() + profile
        } else {
            self.spec_excluded_tags()
        }
    }

    /// Whether `r` is the outcome of a full search that kept `collected`:
    /// no posts is an error, else the queue of the posts, newest first.
    pub open spec fn search_outcome(&self, r: SearchStep, collected: Seq<PostView>) -> bool {
        if collected.len() == 0 {
            r matches SearchStep::Done(Err(ExtractorError::ZeroPosts))
        } else {
            r matches SearchStep::Done(Ok(q)) && self.is_queue_of(q, collected)
        }
    }

    /// The step that asks for the page after `search`'s, when the search
    /// has moved on to it.
    pub open spec fn asks_next_page(&self, r: SearchStep, search: FullSearch) -> bool {
        r matches SearchStep::Fetch { page, limit, delay_ms } && page == page_position(
            search.spec_start_page(),
            search.spec_page(),
        ) && limit == search.spec_limit() && delay_ms == self.spec_site().spec_page_delay_ms()
    }

    /// Starts a full search from `start_page` (page 1 if none), collecting
    /// up to `limit` posts. The search filters with the blacklist
    /// configuration, the excluded tags (and the profile's blacklisted tags
    /// when authenticated), the ratings, the forced extension and, unless
    /// videos are mapped, animation; it filters only where blacklisting is
    /// on, ratings are selected or tags are blacklisted. A start page whose
    /// number overflows ends at once in `Overflow`, a start at page 0 in
    /// `ZeroPage`.
    pub fn full_search_start(&self, start_page: Option<u16>, limit: Option<u16>) -> (r: (
        FullSearch,
        SearchStep,
    ))
        ensures
            position_fits(start_page, 1) ==> r.0.wf(),
            !position_fits(start_page, 1) ==> r.1 is Overflow,
            r.0.spec_start_page() == start_page,
            r.0.spec_limit() == limit,
            r.0.spec_page() == 1,
            r.0.spec_page_limit() == self.spec_site().spec_page_limit(),
            r.0.spec_collected() == Seq::<PostView>::empty(),
            r.0.spec_filtering() == (!self.spec_blacklist_disabled() || self.spec_ratings().len()
                > 0 || self.search_blacklist_tags().len() > 0),
            r.0.spec_filter().made_from(
                self.spec_blacklist_config().sections(),
                self.spec_server().server,
                self.search_blacklist_tags(),
                self.spec_ratings(),
                self.spec_blacklist_disabled(),
                !self.spec_map_videos(),
                self.spec_extension(),
            ),
            position_fits(start_page, 1) && page_position(start_page, 1) == 0 ==> r.1 matches SearchStep::Done(
                Err(ExtractorError::ZeroPage),
            ),
            position_fits(start_page, 1) && page_position(start_page, 1) != 0 ==> (r.1 matches SearchStep::Fetch {
                page,
                limit: l,
                delay_ms,
            } && page == page_position(start_page, 1) && l == limit && delay_ms is None),
    {
        let mut tags = clone_strings(self.user_excluded_tags.as_slice());
        let profile = self.auth_config.blacklisted_tags();
        if self.auth_state.is_auth() && profile.len() > 0 {
            let mut more = clone_strings(profile.as_slice());
            tags.append(&mut more);
        }
        assert(strings_view(tags@) =~= self.search_blacklist_tags());
        let filtering = !self.disable_blacklist || self.download_ratings.len() > 0 || tags.len() > 0;
        let filter = BlacklistFilter::new(
            &self.global_blacklist,
            self.server_cfg.server,
            tags.as_slice(),
            self.download_ratings.as_slice(),
            self.disable_blacklist,
            !self.map_videos,
            self.selected_extension,
        );
        let page_limit = self.site_api.full_search_page_limit();
        let search = FullSearch {
            start_page,
            limit,
            page: 1,
            page_limit,
            filtering,
            filter,
            collected: Vec::new(),
        };
        assert(search.spec_collected() =~= Seq::<PostView>::empty());
        let position = match checked_position(start_page, 1) {
            Some(p) => p,
            None => {
                return (search, SearchStep::Overflow);
            },
        };
        if position == 0 {
            (search, SearchStep::Done(Err(ExtractorError::ZeroPage)))
        } else {
            (search, SearchStep::Fetch { page: position, limit, delay_ms: None })
        }
    }

    /// The outcome of a search that kept the posts `collected`.
    fn finish_search(&self, collected: Vec<Post>) -> (r: SearchStep)
        ensures
            self.search_outcome(r, posts_view(collected@)),
    {
        if collected.len() == 0 {
            SearchStep::Done(Err(ExtractorError::ZeroPosts))
        } else {
            SearchStep::Done(Ok(self.queue_of(collected)))
        }
    }

    /// Takes in the fetched page of a full search. A failed fetch ends the
    /// search with its error. An empty page that ends the search (see
    /// `FullSearch::stops_early`) adds nothing. Otherwise the page's posts
    /// pass through the filter (when the search filters; its count of removed
    /// posts adds to the extractor's) and join the collected posts; the
    /// search then goes on to the next page unless the site calls the page
    /// the last (after the first page), the limit is reached or the page
    /// limit is. A search that ends yields the collected posts, newest
    /// first, or `ZeroPosts` if there are none. One whose count of removed
    /// posts or next page number overflows ends in `Overflow`.
    pub fn full_search_step(
        &mut self,
        search: &mut FullSearch,
        fetched: Result<Vec<Post>, ExtractorError>,
    ) -> (r: SearchStep)
        requires
            old(search).wf(),
        ensures
            final(self).same_settings(&*old(self)),
            final(search).spec_start_page() == old(search).spec_start_page(),
            final(search).spec_limit() == old(search).spec_limit(),
            final(search).spec_page_limit() == old(search).spec_page_limit(),
            final(search).spec_filtering() == old(search).spec_filtering(),
            final(search).spec_filter() == old(search).spec_filter(),
            r is Fetch ==> final(search).spec_page() <= final(search).spec_page_limit(),
            old(search).spec_filtering() ==> (r matches SearchStep::Done(Ok(q)) ==> forall|i: int|
                0 <= i < q.posts@.len() ==> accepted_by(
                    old(search).spec_filter(),
                    #[trigger] posts_view(q.posts@)[i],
                )),
            match fetched {
                Err(e) => r matches SearchStep::Done(Err(e2)) && e2 == e
                    && final(self).spec_total_removed() == old(self).spec_total_removed(),
                Ok(v) => {
                    let page = posts_view(v@);
                    let st = *old(search);
                    if st.stops_early(v@.len()) {
                        &&& final(self).spec_total_removed() == old(self).spec_total_removed()
                        &&& old(self).search_outcome(r, st.spec_collected())
                    } else {
                        let all = st.spec_collected() + st.kept_of(page);
                        if old(self).spec_total_removed() + st.removed_of(page) > u64::MAX {
                            &&& final(self).spec_total_removed() == old(self).spec_total_removed()
                            &&& r is Overflow
                        } else {
                        &&& final(self).spec_total_removed() == old(self).spec_total_removed()
                            + st.removed_of(page)
                        &&& if st.goes_on(
                            old(self).spec_site().spec_stops_after(v@.len()),
                            all.len() as int,
                        ) {
                            &&& final(search).spec_page() == st.spec_page() + 1
                            &&& final(search).spec_collected() == all
                            &&& if position_fits(st.spec_start_page(), final(search).spec_page()) {
                                &&& final(search).wf()
                                &&& old(self).asks_next_page(r, *final(search))
                            } else {
                                r is Overflow
                            }
                        } else {
                            old(self).search_outcome(r, all)
                        }
                        }
                    }
                },
            },
    {
        let posts = match fetched {
            Err(e) => {
                return SearchStep::Done(Err(e));
            },
            Ok(v) => v,
        };
        let count = posts.len();
        let site_stops = self.site_api.full_search_post_limit_break_condition(count);
        if count == 0 && (search.collected.len() > 0 || search.page > 1) {
            let mut collected: Vec<Post> = Vec::new();
            std::mem::swap(&mut collected, &mut search.collected);
            let r = self.finish_search(collected);
            proof {
                if let SearchStep::Done(Ok(q)) = &r {
                    if search.filtering {
                        lemma_reordered_posts_pass(search.filter, posts_view(q.posts@), posts_view(collected@));
                    }
                }
            }
            return r;
        }
        let ghost page_view = posts_view(posts@);
        let mut list = if search.filtering {
            let (removed, kept) = search.filter.filter(posts);
            match self.total_removed.checked_add(removed) {
                Some(t) => {
                    self.total_removed = t;
                },
                None => {
                    return SearchStep::Overflow;
                },
            }
            kept
        } else {
            posts
        };
        let ghost before = posts_view(search.collected@);
        let ghost kept_view = posts_view(list@);
        search.collected.append(&mut list);
        assert(posts_view(search.collected@) =~= before + kept_view);
        proof {
            if search.filtering {
                lemma_kept_posts_pass(search.filter, page_view);
                let all = posts_view(search.collected@);
                assert forall|i: int| 0 <= i < all.len() implies accepted_by(search.filter, #[trigger] all[i]) by {
                    if i < before.len() {
                        assert(all[i] == before[i]);
                    } else {
                        assert(all[i] == kept_view[i - before.len()]);
                    }
                }
            }
        }
        let reached = match search.limit {
            Some(n) => search.collected.len() >= n as usize,
            None => false,
        };
        if (site_stops && search.page > 1) || reached || search.page >= search.page_limit {
            let mut collected: Vec<Post> = Vec::new();
            std::mem::swap(&mut collected, &mut search.collected);
            let r = self.finish_search(collected);
            proof {
                if let SearchStep::Done(Ok(q)) = &r {
                    if search.filtering {
                        lemma_reordered_posts_pass(search.filter, posts_view(q.posts@), posts_view(collected@));
                    }
                }
            }
            return r;
        }
        search.page = search.page + 1;
        let position = match checked_position(search.start_page, search.page) {
            Some(p) => p,
            None => {
                return SearchStep::Overflow;
            },
        };
        SearchStep::Fetch {
            page: position,
            limit: search.limit,
            delay_ms: self.site_api.full_search_api_call_delay(),
        }
    }
}

} // verus!
