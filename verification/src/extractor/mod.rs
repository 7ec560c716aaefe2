//! The generic post extractor and the interface of the imageboard APIs it
//! drives.
use vstd::prelude::*;

use crate::auth::{AuthState, ImageboardConfig};
use crate::blacklist::GlobalBlacklist;
use crate::caps::ExtractorFeatures;
use crate::error::ExtractorError;
use crate::extractor_config::{ServerConfig, ServerConfigView};
use crate::hashing::PoolIndex;
use crate::imageboards::pool_order_map;
use crate::post::{
    posts_view, sort_posts_desc, sorted_by_id_desc, Extension, ImageBoards, Post, PostQueue,
    PostView, Rating,
};
use crate::text::{clone_strings, strings_view};

pub mod common;
pub mod pool;
pub mod search;
pub mod tag_fetch;

verus! {

/// Site-specific API interaction: request URLs, tag handling, paging
/// parameters and the mapping of decoded API responses to posts.
pub trait SiteApi: Sized {
    /// A decoded post list response.
    type PostListResponse;
    /// A decoded single post response.
    type SinglePostResponse;
    /// A decoded pool details response.
    type PoolDetailsResponse;

    spec fn spec_posts_url(&self, base: Seq<char>, page: u16, limit: u16, tags: Seq<char>) -> Seq<char>;

    spec fn spec_single_post_url(&self, base: Seq<char>, post_id: u32) -> Seq<char>;

    spec fn spec_pool_details_url(&self, base: Seq<char>, pool_id: u32) -> Seq<char>;

    spec fn spec_query_tags(&self, tags: Seq<Seq<char>>) -> Seq<char>;

    spec fn spec_queue_tags(&self, tags: Seq<Seq<char>>) -> Seq<Seq<char>>;

    spec fn spec_page_limit(&self) -> u16;

    spec fn spec_stops_after(&self, posts_fetched_this_page: nat) -> bool;

    spec fn spec_page_delay_ms(&self) -> Option<u64>;

    spec fn spec_post_delay_ms(&self) -> u64;

    spec fn spec_board(&self) -> ImageBoards;

    spec fn spec_feature_bits() -> u8;

    /// The posts a decoded post list maps to; `None` where mapping fails.
    spec fn spec_list_posts(&self, response: Self::PostListResponse) -> Option<Seq<PostView>>;

    /// The post a decoded single post maps to; `None` where mapping fails.
    spec fn spec_single_post(&self, response: Self::SinglePostResponse) -> Option<PostView>;

    /// The post ids of decoded pool details, in pool order; `None` where the
    /// site has no pools.
    spec fn spec_pool_ids(&self, response: Self::PoolDetailsResponse) -> Option<Seq<u64>>;

    /// Maps a decoded post list to posts.
    fn map_post_list_response(&self, response: Self::PostListResponse) -> (r: Result<
        Vec<Post>,
        ExtractorError,
    >)
        ensures
            match self.spec_list_posts(response) {
                Some(s) => r matches Ok(v) && posts_view(v@) == s,
                None => r is Err,
            },
    ;

    /// Maps a decoded single post to a post.
    fn map_single_post_response(&self, response: Self::SinglePostResponse) -> (r: Result<
        Post,
        ExtractorError,
    >)
        ensures
            match self.spec_single_post(response) {
                Some(p) => r matches Ok(q) && q@ == p,
                None => r is Err,
            },
    ;

    /// The URL of one post; `base_url` is the server's post URL.
    fn single_post_url(&self, base_url: &str, post_id: u32) -> (r: String)
        ensures
            r@ == self.spec_single_post_url(base_url@, post_id),
    ;

    /// The URL of one page of posts; `base_url` is the server's post list URL,
    /// `page_num` counts from 1.
    fn posts_url(&self, base_url: &str, page_num: u16, limit: u16, tags_query_string: &str) -> (r:
        String)
        ensures
            r@ == self.spec_posts_url(base_url@, page_num, limit, tags_query_string@),
    ;

    /// The tag string for API queries and the tags for the post queue.
    fn process_tags(&mut self, input_tags: &[String]) -> (r: (String, Vec<String>))
        ensures
            *final(self) == *old(self),
            r.0@ == old(self).spec_query_tags(strings_view(input_tags@)),
            strings_view(r.1@) == old(self).spec_queue_tags(strings_view(input_tags@)),
    ;

    /// The most pages a search crawls.
    fn full_search_page_limit(&self) -> (r: u16)
        ensures
            r == self.spec_page_limit(),
    ;

    /// Whether a page with this many posts ends a search.
    fn full_search_post_limit_break_condition(&self, posts_fetched_this_page: usize) -> (r: bool)
        ensures
            r == self.spec_stops_after(posts_fetched_this_page as nat),
    ;

    /// The pause between pages of a search, in milliseconds.
    fn full_search_api_call_delay(&self) -> (r: Option<u64>)
        ensures
            r == self.spec_page_delay_ms(),
    ;

    /// The pause between single post requests, in milliseconds.
    fn multi_get_post_api_call_delay(&self) -> (r: u64)
        ensures
            r == self.spec_post_delay_ms(),
    ;

    /// The imageboard this API speaks to.
    fn imageboard_type(&self) -> (r: ImageBoards)
        ensures
            r == self.spec_board(),
    ;

    /// The capabilities of extractors for this API.
    fn features() -> (r: ExtractorFeatures)
        ensures
            r.spec_bits() == Self::spec_feature_bits(),
    ;

    /// The URL of a pool's details; `base_url` is the server's pool URL.
    fn pool_details_url(&self, base_url: &str, pool_id: u32) -> (r: String)
        ensures
            r@ == self.spec_pool_details_url(base_url@, pool_id),
    ;

    /// Maps decoded pool details to the pool's post ids and their 0-based order.
    fn map_pool_details_to_post_ids_with_order(&self, response: Self::PoolDetailsResponse) -> (r:
        Result<PoolIndex, ExtractorError>)
        ensures
            match self.spec_pool_ids(response) {
                Some(ids) => r matches Ok(m) && m@ == pool_order_map(ids),
                None => r is Err,
            },
    ;

    /// The post ids of decoded pool details, in pool order.
    fn pool_post_ids(&self, response: Self::PoolDetailsResponse) -> (r: Result<Vec<u64>, ExtractorError>)
        ensures
            match self.spec_pool_ids(response) {
                Some(ids) => r matches Ok(v) && v@ == ids,
                None => r is Err,
            },
    ;
}

/// Which pool to download, and in which order.
#[derive(Clone, Copy, Debug)]
pub struct PoolDownloadConfig {
    pub pool_id: u32,
    /// The pool's last post first.
    pub last_first: bool,
}

/// The download that an asynchronous fetch runs.
pub enum FetchKind {
    /// The download of the configured pool.
    Pool(PoolDownloadConfig),
    /// The download of the posts of the tags.
    Tags,
}

/// A request to an imageboard API: the URL, and the username and API key to
/// send as basic authentication when the user is authenticated.
pub struct ApiRequest {
    pub url: String,
    pub credentials: Option<(String, String)>,
}

/// Generic post extractor for imageboards: the tags of the search, the
/// filtering options and the state of authentication, driving a `SiteApi`.
pub struct PostExtractor<S: SiteApi> {
    tags_for_query: String,
    tags_for_post_queue: Vec<String>,
    auth_state: AuthState,
    auth_config: ImageboardConfig,
    download_ratings: Vec<Rating>,
    disable_blacklist: bool,
    total_removed: u64,
    map_videos: bool,
    user_excluded_tags: Vec<String>,
    selected_extension: Option<Extension>,
    server_cfg: ServerConfig,
    pool_config: Option<PoolDownloadConfig>,
    global_blacklist: GlobalBlacklist,
    site_api: S,
}

impl<S: SiteApi> PostExtractor<S> {
    /// The tag string of API queries.
    pub closed spec fn spec_query_tags(&self) -> Seq<char> {
        self.tags_for_query@
    }

    /// The tags of the post queue, which tag searches also require of posts.
    pub closed spec fn spec_queue_tags(&self) -> Seq<Seq<char>> {
        strings_view(self.tags_for_post_queue@)
    }

    pub closed spec fn spec_auth_state(&self) -> AuthState {
        self.auth_state
    }

    pub closed spec fn spec_auth_config(&self) -> ImageboardConfig {
        self.auth_config
    }

    /// The ratings to download; none selected downloads every rating.
    pub closed spec fn spec_ratings(&self) -> Seq<Rating> {
        self.download_ratings@
    }

    pub closed spec fn spec_blacklist_disabled(&self) -> bool {
        self.disable_blacklist
    }

    /// The number of posts the filters removed so far.
    pub closed spec fn spec_total_removed(&self) -> u64 {
        self.total_removed
    }

    /// Whether animated posts are kept.
    pub closed spec fn spec_map_videos(&self) -> bool {
        self.map_videos
    }

    /// The tags the user excluded.
    pub closed spec fn spec_excluded_tags(&self) -> Seq<Seq<char>> {
        strings_view(self.user_excluded_tags@)
    }

    pub closed spec fn spec_extension(&self) -> Option<Extension> {
        self.selected_extension
    }

    pub closed spec fn spec_server(&self) -> ServerConfigView {
        self.server_cfg@
    }

    pub closed spec fn spec_pool(&self) -> Option<PoolDownloadConfig> {
        self.pool_config
    }

    /// The sections of the blacklist configuration.
    pub closed spec fn spec_blacklist_config(&self) -> GlobalBlacklist {
        self.global_blacklist
    }

    pub closed spec fn spec_site(&self) -> S {
        self.site_api
    }

    /// Whether requests carry the user's credentials.
    pub open spec fn spec_is_auth(&self) -> bool {
        self.spec_auth_state() == AuthState::Authenticated
    }

    /// The credentials that requests carry.
    pub open spec fn spec_credentials(&self) -> Option<(Seq<char>, Seq<char>)> {
        if self.spec_is_auth() {
            Some((self.spec_auth_config().spec_username()@, self.spec_auth_config().spec_api_key()@))
        } else {
            None
        }
    }

    /// Everything but the count of removed posts is as in `other`.
    pub open spec fn same_settings(&self, other: &Self) -> bool {
        &&& self.spec_query_tags() == other.spec_query_tags()
        &&& self.spec_queue_tags() == other.spec_queue_tags()
        &&& self.spec_auth_state() == other.spec_auth_state()
        &&& self.spec_auth_config() == other.spec_auth_config()
        &&& self.spec_ratings() == other.spec_ratings()
        &&& self.spec_blacklist_disabled() == other.spec_blacklist_disabled()
        &&& self.spec_map_videos() == other.spec_map_videos()
        &&& self.spec_excluded_tags() == other.spec_excluded_tags()
        &&& self.spec_extension() == other.spec_extension()
        &&& self.spec_server() == other.spec_server()
        &&& self.spec_pool() == other.spec_pool()
        &&& self.spec_blacklist_config().sections() == other.spec_blacklist_config().sections()
        &&& self.spec_site() == other.spec_site()
    }

    /// Creates an extractor for the given tags, blacklist configuration,
    /// ratings and server, driving `site_api`. The site's API decides the
    /// tag string of queries and the tags of the post queue. The extractor
    /// starts unauthenticated, with no excluded tags, no forced extension,
    /// no pool and no removed posts.
    pub fn new(
        tags_raw: &[String],
        global_blacklist: &GlobalBlacklist,
        download_ratings: &[Rating],
        disable_blacklist: bool,
        map_videos: bool,
        site_api: S,
        server_cfg: ServerConfig,
    ) -> (r: Self)
        ensures
            r.spec_query_tags() == site_api.spec_query_tags(strings_view(tags_raw@)),
            r.spec_queue_tags() == site_api.spec_queue_tags(strings_view(tags_raw@)),
            r.spec_auth_state() == AuthState::NotAuthenticated,
            r.spec_auth_config().spec_username()@ == Seq::<char>::empty(),
            r.spec_auth_config().spec_api_key()@ == Seq::<char>::empty(),
            r.spec_auth_config().spec_user_data().blacklisted_tags@.len() == 0,
            r.spec_ratings() == download_ratings@,
            r.spec_blacklist_disabled() == disable_blacklist,
            r.spec_total_removed() == 0,
            r.spec_map_videos() == map_videos,
            r.spec_excluded_tags() == Seq::<Seq<char>>::empty(),
            r.spec_extension() is None,
            r.spec_server() == server_cfg@,
            r.spec_pool() is None,
            r.spec_blacklist_config().sections() == global_blacklist.sections(),
            r.spec_site() == site_api,
    {
        let mut site_api = site_api;
        let initial_tags = clone_strings(tags_raw);
        let (tags_for_query, tags_for_post_queue) = site_api.process_tags(initial_tags.as_slice());
        let mut ratings: Vec<Rating> = Vec::new();
        for i in 0..download_ratings.len()
            invariant
                ratings@ == download_ratings@.take(i as int),
        {
            ratings.push(download_ratings[i]);
            assert(download_ratings@.take(i + 1) =~= download_ratings@.take(i as int).push(
                download_ratings@[i as int],
            ));
        }
        assert(download_ratings@.take(download_ratings@.len() as int) =~= download_ratings@);
        let r = PostExtractor {
            tags_for_query,
            tags_for_post_queue,
            auth_state: AuthState::NotAuthenticated,
            auth_config: ImageboardConfig::default(),
            download_ratings: ratings,
            disable_blacklist,
            total_removed: 0,
            map_videos,
            user_excluded_tags: Vec::new(),
            selected_extension: None,
            server_cfg,
            pool_config: None,
            global_blacklist: global_blacklist.duplicate(),
            site_api,
        };
        assert(r.spec_excluded_tags() =~= Seq::<Seq<char>>::empty());
        r
    }
}


/// The views of optional credentials.
pub open spec fn credentials_view(c: Option<(String, String)>) -> Option<(Seq<char>, Seq<char>)> {
    match c {
        Some((u, k)) => Some((u@, k@)),
        None => None,
    }
}

/// The number of posts a page request asks for: the requested number, at
/// most the server's maximum, or the maximum when none is requested.
pub open spec fn page_post_count(limit: Option<u16>, max_post_limit: u16) -> u16 {
    match limit {
        Some(c) => if c < max_post_limit { c } else { max_post_limit },
        None => max_post_limit,
    }
}

/// A page request never asks for more posts than the server serves per
/// page, nor more than were asked for.
pub proof fn lemma_page_post_count(limit: Option<u16>, max_post_limit: u16)
    ensures
        page_post_count(limit, max_post_limit) <= max_post_limit,
        limit matches Some(c) ==> page_post_count(limit, max_post_limit) <= c,
{
}

/// Requests carry the user's username and API key exactly when the
/// extractor is authenticated.
pub proof fn lemma_credentials_after_auth<S: SiteApi>(e: PostExtractor<S>)
    ensures
        e.spec_auth_state() == AuthState::Authenticated ==> e.spec_credentials() == Some(
            (e.spec_auth_config().spec_username()@, e.spec_auth_config().spec_api_key()@),
        ),
        e.spec_auth_state() == AuthState::NotAuthenticated ==> e.spec_credentials() is None,
{
}

impl<S: SiteApi> PostExtractor<S> {
    /// Whether `q` is the post queue of this extractor made of the posts `s`:
    /// the same posts, newest first, with the extractor's server and tags.
    pub open spec fn is_queue_of(&self, q: PostQueue, s: Seq<PostView>) -> bool {
        &&& q.imageboard == self.spec_server().server
        &&& posts_view(q.posts@).to_multiset() == s.to_multiset()
        &&& sorted_by_id_desc(posts_view(q.posts@))
        &&& strings_view(q.tags@) == self.spec_queue_tags()
    }

    /// The request made with this extractor's credentials to `url`.
    pub open spec fn is_request_to(&self, req: ApiRequest, url: Seq<char>) -> bool {
        &&& req.url@ == url
        &&& credentials_view(req.credentials) == self.spec_credentials()
    }

    /// The credentials to send, when the user is authenticated.
    fn credentials(&self) -> (r: Option<(String, String)>)
        ensures
            credentials_view(r) == self.spec_credentials(),
    {
        if self.auth_state.is_auth() {
            Some((self.auth_config.username().clone(), self.auth_config.api_key().clone()))
        } else {
            None
        }
    }

    /// Replaces the tags the user excludes.
    pub fn exclude_tags(&mut self, tags: &[String]) -> (r: &mut Self)
        ensures
            r.spec_excluded_tags() == strings_view(tags@),
            r.spec_total_removed() == old(self).spec_total_removed(),
            r.spec_query_tags() == old(self).spec_query_tags(),
            r.spec_queue_tags() == old(self).spec_queue_tags(),
            r.spec_auth_state() == old(self).spec_auth_state(),
            r.spec_auth_config() == old(self).spec_auth_config(),
            r.spec_ratings() == old(self).spec_ratings(),
            r.spec_blacklist_disabled() == old(self).spec_blacklist_disabled(),
            r.spec_map_videos() == old(self).spec_map_videos(),
            r.spec_extension() == old(self).spec_extension(),
            r.spec_server() == old(self).spec_server(),
            r.spec_pool() == old(self).spec_pool(),
            r.spec_blacklist_config().sections() == old(self).spec_blacklist_config().sections(),
            r.spec_site() == old(self).spec_site(),
            *final(self) == *final(r),
    {
        self.user_excluded_tags = clone_strings(tags);
        self
    }

    /// Keeps only posts of the given extension.
    pub fn force_extension(&mut self, extension: Extension) -> (r: &mut Self)
        ensures
            r.spec_extension() == Some(extension),
            r.spec_total_removed() == old(self).spec_total_removed(),
            r.spec_query_tags() == old(self).spec_query_tags(),
            r.spec_queue_tags() == old(self).spec_queue_tags(),
            r.spec_auth_state() == old(self).spec_auth_state(),
            r.spec_auth_config() == old(self).spec_auth_config(),
            r.spec_ratings() == old(self).spec_ratings(),
            r.spec_blacklist_disabled() == old(self).spec_blacklist_disabled(),
            r.spec_map_videos() == old(self).spec_map_videos(),
            r.spec_excluded_tags() == old(self).spec_excluded_tags(),
            r.spec_server() == old(self).spec_server(),
            r.spec_pool() == old(self).spec_pool(),
            r.spec_blacklist_config().sections() == old(self).spec_blacklist_config().sections(),
            r.spec_site() == old(self).spec_site(),
            *final(self) == *final(r),
    {
        self.selected_extension = Some(extension);
        self
    }

    /// Configures a pool download of the given pool, or clears it when no
    /// pool is given.
    pub fn setup_pool_download(&mut self, pool_id: Option<u32>, last_first: bool)
        ensures
            final(self).spec_pool() == (match pool_id {
                Some(id) => Some(PoolDownloadConfig { pool_id: id, last_first }),
                None => None,
            }),
            final(self).spec_total_removed() == old(self).spec_total_removed(),
            final(self).spec_query_tags() == old(self).spec_query_tags(),
            final(self).spec_queue_tags() == old(self).spec_queue_tags(),
            final(self).spec_auth_state() == old(self).spec_auth_state(),
            final(self).spec_auth_config() == old(self).spec_auth_config(),
            final(self).spec_ratings() == old(self).spec_ratings(),
            final(self).spec_blacklist_disabled() == old(self).spec_blacklist_disabled(),
            final(self).spec_map_videos() == old(self).spec_map_videos(),
            final(self).spec_excluded_tags() == old(self).spec_excluded_tags(),
            final(self).spec_extension() == old(self).spec_extension(),
            final(self).spec_server() == old(self).spec_server(),
            final(self).spec_blacklist_config().sections() == old(self).spec_blacklist_config().sections(),
            final(self).spec_site() == old(self).spec_site(),
    {
        match pool_id {
            Some(id) => {
                self.pool_config = Some(PoolDownloadConfig { pool_id: id, last_first });
            },
            None => {
                self.pool_config = None;
            },
        }
    }

    /// Authenticates with the given user configuration: later requests carry
    /// its credentials, and its blacklisted tags join full searches.
    pub fn auth(&mut self, config: ImageboardConfig) -> (r: Result<(), ExtractorError>)
        ensures
            r is Ok,
            final(self).spec_auth_state() == AuthState::Authenticated,
            final(self).spec_auth_config() == config,
            final(self).spec_total_removed() == old(self).spec_total_removed(),
            final(self).spec_query_tags() == old(self).spec_query_tags(),
            final(self).spec_queue_tags() == old(self).spec_queue_tags(),
            final(self).spec_ratings() == old(self).spec_ratings(),
            final(self).spec_blacklist_disabled() == old(self).spec_blacklist_disabled(),
            final(self).spec_map_videos() == old(self).spec_map_videos(),
            final(self).spec_excluded_tags() == old(self).spec_excluded_tags(),
            final(self).spec_extension() == old(self).spec_extension(),
            final(self).spec_server() == old(self).spec_server(),
            final(self).spec_pool() == old(self).spec_pool(),
            final(self).spec_blacklist_config().sections() == old(self).spec_blacklist_config().sections(),
            final(self).spec_site() == old(self).spec_site(),
    {
        self.auth_config = config;
        self.auth_state = AuthState::Authenticated;
        Ok(())
    }

    /// The download an asynchronous fetch runs: the pool's when a pool
    /// download is configured, else the tag download.
    pub fn fetch_kind(&self) -> (r: FetchKind)
        ensures
            match self.spec_pool() {
                Some(c) => r == FetchKind::Pool(c),
                None => r is Tags,
            },
    {
        match self.pool_config {
            Some(c) => FetchKind::Pool(c),
            None => FetchKind::Tags,
        }
    }

    /// The number of posts the filters removed so far.
    pub fn total_removed(&self) -> (r: u64)
        ensures
            r == self.spec_total_removed(),
    {
        self.total_removed
    }

    /// The imageboard of the site's API.
    pub fn imageboard(&self) -> (r: ImageBoards)
        ensures
            r == self.spec_site().spec_board(),
    {
        self.site_api.imageboard_type()
    }

    /// The capabilities of the site's API.
    pub fn features() -> (r: ExtractorFeatures)
        ensures
            r.spec_bits() == S::spec_feature_bits(),
    {
        S::features()
    }

    /// A copy of the server configuration.
    pub fn config(&self) -> (r: ServerConfig)
        ensures
            r@ == self.spec_server(),
    {
        self.server_cfg.duplicate()
    }

    /// The request for one page of posts: the site's post list URL for the
    /// page, asking for `limit_option` posts (at most, and by default, the
    /// server's maximum), with the query tags. A server without a post list
    /// URL does not support it.
    pub fn post_list_request(&self, page: u16, limit_option: Option<u16>) -> (r: Result<
        ApiRequest,
        ExtractorError,
    >)
        ensures
            self.spec_server().post_list_url is None ==> r matches Err(
                ExtractorError::UnsupportedOperation,
            ),
            self.spec_server().post_list_url matches Some(base) ==> (r matches Ok(req)
                && self.is_request_to(
                req,
                self.spec_site().spec_posts_url(
                    base,
                    page,
                    page_post_count(limit_option, self.spec_server().max_post_limit),
                    self.spec_query_tags(),
                ),
            )),
    {
        let base = match &self.server_cfg.post_list_url {
            Some(b) => b,
            None => {
                return Err(ExtractorError::UnsupportedOperation);
            },
        };
        let max = self.server_cfg.max_post_limit;
        let count = match limit_option {
            Some(c) => if c < max { c } else { max },
            None => max,
        };
        let url = self.site_api.posts_url(base.as_str(), page, count, self.tags_for_query.as_str());
        Ok(ApiRequest { url, credentials: self.credentials() })
    }

    /// The request for one post: the site's URL of the post under the
    /// server's post URL. A server without a post URL does not support it.
    pub fn post_request(&self, post_id: u32) -> (r: Result<ApiRequest, ExtractorError>)
        ensures
            self.spec_server().post_url is None ==> r matches Err(
                ExtractorError::UnsupportedOperation,
            ),
            self.spec_server().post_url matches Some(base) ==> (r matches Ok(req)
                && self.is_request_to(req, self.spec_site().spec_single_post_url(base, post_id))),
    {
        let base = match &self.server_cfg.post_url {
            Some(b) => b,
            None => {
                return Err(ExtractorError::UnsupportedOperation);
            },
        };
        let url = self.site_api.single_post_url(base.as_str(), post_id);
        Ok(ApiRequest { url, credentials: self.credentials() })
    }

    /// The request for a pool's details: the site's URL of the pool under the
    /// server's pool URL. A server without a pool URL does not support it.
    pub fn pool_request(&self, pool_id: u32) -> (r: Result<ApiRequest, ExtractorError>)
        ensures
            self.spec_server().pool_idx_url is None ==> r matches Err(
                ExtractorError::UnsupportedOperation,
            ),
            self.spec_server().pool_idx_url matches Some(base) ==> (r matches Ok(req)
                && self.is_request_to(req, self.spec_site().spec_pool_details_url(base, pool_id))),
    {
        let base = match &self.server_cfg.pool_idx_url {
            Some(b) => b,
            None => {
                return Err(ExtractorError::UnsupportedOperation);
            },
        };
        let url = self.site_api.pool_details_url(base.as_str(), pool_id);
        Ok(ApiRequest { url, credentials: self.credentials() })
    }

    /// Maps a decoded post list response to posts.
    pub fn map_posts(&self, response: S::PostListResponse) -> (r: Result<Vec<Post>, ExtractorError>)
        ensures
            match self.spec_site().spec_list_posts(response) {
                Some(s) => r matches Ok(v) && posts_view(v@) == s,
                None => r is Err,
            },
    {
        self.site_api.map_post_list_response(response)
    }

    /// Maps a decoded single post response to a post.
    pub fn map_post(&self, response: S::SinglePostResponse) -> (r: Result<Post, ExtractorError>)
        ensures
            match self.spec_site().spec_single_post(response) {
                Some(p) => r matches Ok(q) && q@ == p,
                None => r is Err,
            },
    {
        self.site_api.map_single_post_response(response)
    }

    /// The post ids of decoded pool details, in pool order.
    pub fn parse_pool_ids(&self, response: S::PoolDetailsResponse) -> (r: Result<Vec<u64>, ExtractorError>)
        ensures
            match self.spec_site().spec_pool_ids(response) {
                Some(ids) => r matches Ok(v) && v@ == ids,
                None => r is Err,
            },
    {
        self.site_api.pool_post_ids(response)
    }

    /// The result of a one-page search, given the page's posts: the fetch's
    /// error, no posts as an error, or the queue of the posts, newest first.
    pub fn search_result(&self, fetched: Result<Vec<Post>, ExtractorError>) -> (r: Result<
        PostQueue,
        ExtractorError,
    >)
        ensures
            match fetched {
                Err(e) => r matches Err(e2) && e2 == e,
                Ok(v) => if v@.len() == 0 {
                    r matches Err(ExtractorError::ZeroPosts)
                } else {
                    r matches Ok(q) && self.is_queue_of(q, posts_view(v@))
                },
            },
    {
        match fetched {
            Err(e) => Err(e),
            Ok(posts) => {
                if posts.len() == 0 {
                    Err(ExtractorError::ZeroPosts)
                } else {
                    Ok(self.queue_of(posts))
                }
            },
        }
    }

    /// The queue of the given posts, newest first.
    fn queue_of(&self, posts: Vec<Post>) -> (q: PostQueue)
        ensures
            self.is_queue_of(q, posts_view(posts@)),
    {
        PostQueue {
            imageboard: self.server_cfg.server,
            posts: sort_posts_desc(posts),
            tags: clone_strings(self.tags_for_post_queue.as_slice()),
        }
    }

    /// The pause after fetching the `idx`-th (from 0) of `count` posts
    /// fetched one by one: the site's pause, but none after the last.
    pub fn post_fetch_delay(&self, idx: usize, count: usize) -> (r: Option<u64>)
        ensures
            r == (if idx + 1 < count { Some(self.spec_site().spec_post_delay_ms()) } else { None }),
    {
        if idx < count && idx < count - 1 {
            Some(self.site_api.multi_get_post_api_call_delay())
        } else {
            None
        }
    }
}

} // verus!
