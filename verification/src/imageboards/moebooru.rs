//! Post extractor API for `https://konachan.com` and other Moebooru imageboards.
use vstd::prelude::*;

use super::{
    join_tags, joined_tags, push_tags_param, split_tags, split_tags_spec, str_or, string_or,
    tags_param, url_ext, url_extension,
};
use crate::caps::ExtractorFeatures;
use crate::error::ExtractorError;
use crate::extractor::SiteApi;
use crate::hashing::PoolIndex;
use crate::post::{
    extension_from_str, posts_view, rating_from_str, Extension, ImageBoards, Post, PostView,
    Rating, TagType,
};
use crate::text::{clone_strings, decimal, u64_to_decimal};

verus! {

/// A post as the Moebooru API returns it.
#[derive(Debug)]
pub struct KonachanPost {
    pub id: Option<u64>,
    pub md5: Option<String>,
    pub file_url: Option<String>,
    pub rating: String,
    pub tags: String,
}

/// A Moebooru post that has a file URL: the extension is read from the URL,
/// a missing md5 reads `unknown`.
pub open spec fn moebooru_post(p: KonachanPost) -> PostView {
    let url = str_or(p.file_url, ""@);
    PostView {
        id: match p.id {
            Some(i) => i,
            None => 0,
        },
        website: ImageBoards::Moebooru,
        md5: str_or(p.md5, "unknown"@),
        url,
        extension: extension_from_str(url_ext(url)),
        tags: split_tags_spec(p.tags@, TagType::Any),
        rating: rating_from_str(p.rating@),
    }
}

fn map_konachan_post(c: KonachanPost) -> (r: Post)
    ensures
        r@ == moebooru_post(c),
{
    let tags = split_tags(c.tags.as_str(), TagType::Any);
    let rating = Rating::from_rating_str(c.rating.as_str());
    let url = string_or(c.file_url, "");
    let ext = url_extension(url.as_str());
    Post {
        id: match c.id {
            Some(i) => i,
            None => 0,
        },
        website: ImageBoards::Moebooru,
        url,
        md5: string_or(c.md5, "unknown"),
        extension: Extension::guess_format(ext.as_str()),
        tags,
        rating,
    }
}

/// API logic for Moebooru.
#[derive(Debug, Clone, Copy)]
pub struct MoebooruApi;

impl MoebooruApi {
    pub fn new() -> (r: Self) {
        MoebooruApi
    }
}

impl SiteApi for MoebooruApi {
    type PostListResponse = Vec<KonachanPost>;
    type SinglePostResponse = ();
    type PoolDetailsResponse = ();

    open spec fn spec_posts_url(&self, base: Seq<char>, page: u16, limit: u16, tags: Seq<char>) -> Seq<
        char,
    > {
        base + "&page="@ + decimal(page as nat) + "&limit="@ + decimal(limit as nat) + tags_param(tags)
    }

    /// Moebooru fetches no single posts.
    open spec fn spec_single_post_url(&self, base: Seq<char>, post_id: u32) -> Seq<char> {
        Seq::empty()
    }

    /// Moebooru has no pools.
    open spec fn spec_pool_details_url(&self, base: Seq<char>, pool_id: u32) -> Seq<char> {
        Seq::empty()
    }

    open spec fn spec_query_tags(&self, tags: Seq<Seq<char>>) -> Seq<char> {
        joined_tags(tags)
    }

    open spec fn spec_queue_tags(&self, tags: Seq<Seq<char>>) -> Seq<Seq<char>> {
        tags
    }

    open spec fn spec_page_limit(&self) -> u16 {
        100
    }

    open spec fn spec_stops_after(&self, n: nat) -> bool {
        n == 0
    }

    open spec fn spec_page_delay_ms(&self) -> Option<u64> {
        Some(500)
    }

    open spec fn spec_post_delay_ms(&self) -> u64 {
        500
    }

    open spec fn spec_board(&self) -> ImageBoards {
        ImageBoards::Moebooru
    }

    open spec fn spec_feature_bits() -> u8 {
        0b0000_0011
    }

    open spec fn spec_list_posts(&self, response: Vec<KonachanPost>) -> Option<Seq<PostView>> {
        Some(response@.filter(|p: KonachanPost| p.file_url is Some).map_values(|p: KonachanPost| moebooru_post(p)))
    }

    /// Single posts are not fetched from Moebooru.
    open spec fn spec_single_post(&self, response: ()) -> Option<PostView> {
        None
    }

    /// Moebooru has no pools.
    open spec fn spec_pool_ids(&self, response: ()) -> Option<Seq<u64>> {
        None
    }

    /// Keeps the posts that have a file URL and maps them, in order.
    fn map_post_list_response(&self, response: Vec<KonachanPost>) -> (r: Result<
        Vec<Post>,
        ExtractorError,
    >)
        ensures
            r matches Ok(v) && posts_view(v@) == response@.filter(
                |p: KonachanPost| p.file_url is Some,
            ).map_values(|p: KonachanPost| moebooru_post(p)),
    {
        let ghost input = response@;
        let ghost pred = |p: KonachanPost| p.file_url is Some;
        let ghost f = |p: KonachanPost| moebooru_post(p);
        let mut out: Vec<Post> = Vec::new();
        for c in it: response
            invariant
                it.seq() == input,
                pred == (|p: KonachanPost| p.file_url is Some),
                f == (|p: KonachanPost| moebooru_post(p)),
                posts_view(out@) == input.take(it.index() as int).filter(pred).map_values(f),
        {
            proof {
                super::lemma_filter_map_step(input, it.index() as int, pred, f);
            }
            let ghost before = posts_view(out@);
            if c.file_url.is_some() {
                let ghost cc = c;
                let p = map_konachan_post(c);
                out.push(p);
                assert(posts_view(out@) =~= before.push(f(cc)));
            }
        }
        assert(input.take(input.len() as int) =~= input);
        Ok(out)
    }

    /// Moebooru fetches no single posts.
    fn map_single_post_response(&self, response: ()) -> (r: Result<Post, ExtractorError>)
        ensures
            r matches Err(ExtractorError::UnsupportedOperation),
    {
        Err(ExtractorError::UnsupportedOperation)
    }

    /// Moebooru fetches no single posts: the empty string.
    fn single_post_url(&self, base_url: &str, post_id: u32) -> (r: String) {
        String::new()
    }

    /// `base_url&page=page&limit=limit`, then `&tags=` and the tags if any.
    fn posts_url(&self, base_url: &str, page: u16, limit: u16, tags_query_string: &str) -> (r:
        String) {
        let mut url = String::from_str(base_url);
        url.append("&page=");
        let p = u64_to_decimal(page as u64);
        url.append(p.as_str());
        url.append("&limit=");
        let l = u64_to_decimal(limit as u64);
        url.append(l.as_str());
        push_tags_param(&mut url, tags_query_string);
        url
    }

    /// All tags joined with `+` for the query; all tags for the queue.
    fn process_tags(&mut self, input_tags: &[String]) -> (r: (String, Vec<String>)) {
        let all = clone_strings(input_tags);
        let tag_string = join_tags(&all);
        (tag_string, all)
    }

    fn full_search_page_limit(&self) -> (r: u16) {
        100
    }

    fn full_search_post_limit_break_condition(&self, posts_fetched_this_page: usize) -> (r: bool) {
        posts_fetched_this_page == 0
    }

    fn full_search_api_call_delay(&self) -> (r: Option<u64>) {
        Some(500)
    }

    fn multi_get_post_api_call_delay(&self) -> (r: u64) {
        500
    }

    fn imageboard_type(&self) -> (r: ImageBoards) {
        ImageBoards::Moebooru
    }

    /// Asynchronous fetch and tag search.
    fn features() -> (r: ExtractorFeatures) {
        assert(0b0000_0011u8 & 0b0001_1111u8 == 0b0000_0011u8) by (bit_vector);
        ExtractorFeatures::from_bits_truncate(0b0000_0011)
    }

    /// Moebooru has no pools: the empty string.
    fn pool_details_url(&self, base_url: &str, pool_id: u32) -> (r: String) {
        String::new()
    }

    fn map_pool_details_to_post_ids_with_order(&self, response: ()) -> (r: Result<
        PoolIndex,
        ExtractorError,
    >)
        ensures
            r matches Err(ExtractorError::UnsupportedOperation),
    {
        Err(ExtractorError::UnsupportedOperation)
    }

    fn pool_post_ids(&self, response: ()) -> (r: Result<Vec<u64>, ExtractorError>)
        ensures
            r matches Err(ExtractorError::UnsupportedOperation),
    {
        Err(ExtractorError::UnsupportedOperation)
    }
}

} // verus!
