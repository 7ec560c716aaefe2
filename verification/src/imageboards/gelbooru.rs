//! Post extractor API for Gelbooru-based imageboards.
use vstd::prelude::*;

use super::{
    join_tags, joined_tags, opt_split_tags, push_opt_tags, push_tags_param, str_or, string_or,
    tags_param, url_ext, url_extension,
};
use crate::caps::ExtractorFeatures;
use crate::error::ExtractorError;
use crate::extractor::SiteApi;
use crate::hashing::PoolIndex;
use crate::post::{
    extension_from_str, posts_view, rating_from_str, tags_view, Extension, ImageBoards, Post,
    PostView, Rating, Tag, TagType, TagView,
};
use crate::text::{clone_strings, decimal, u64_to_decimal};

verus! {

/// A page of posts as the Gelbooru API returns it.
#[derive(Debug)]
pub struct GelbooruTopLevel {
    pub post: Vec<GelbooruPost>,
}

/// A post as the Gelbooru API returns it.
#[derive(Debug)]
pub struct GelbooruPost {
    pub id: Option<u64>,
    pub md5: Option<String>,
    pub file_url: Option<String>,
    pub tags: Option<String>,
    pub rating: Option<String>,
}

/// A Gelbooru post that has a file URL: the extension is read from the URL,
/// a missing md5 reads `unknown`, a missing rating counts as safe.
pub open spec fn gelbooru_post(p: GelbooruPost) -> PostView {
    let url = str_or(p.file_url, ""@);
    PostView {
        id: match p.id {
            Some(i) => i,
            None => 0,
        },
        website: ImageBoards::Gelbooru,
        md5: str_or(p.md5, "unknown"@),
        url,
        extension: extension_from_str(url_ext(url)),
        tags: opt_split_tags(p.tags, TagType::Any),
        rating: rating_from_str(str_or(p.rating, "s"@)),
    }
}

/// The posts of a response that have a file URL, mapped in order.
pub open spec fn gelbooru_posts(r: GelbooruTopLevel) -> Seq<PostView> {
    r.post@.filter(|p: GelbooruPost| p.file_url is Some).map_values(|p: GelbooruPost| gelbooru_post(p))
}

impl GelbooruPost {
    /// The space-separated tags, of no particular category.
    pub fn map_tags(&self) -> (r: Vec<Tag>)
        ensures
            tags_view(r@) == opt_split_tags(self.tags, TagType::Any),
    {
        let mut tags: Vec<Tag> = Vec::new();
        push_opt_tags(&mut tags, &self.tags, TagType::Any);
        assert(tags_view(tags@) =~= opt_split_tags(self.tags, TagType::Any));
        tags
    }
}

fn map_gelbooru_post(c: GelbooruPost) -> (r: Post)
    ensures
        r@ == gelbooru_post(c),
{
    let tag_list = c.map_tags();
    let rt = string_or(c.rating, "s");
    let rating = Rating::from_rating_str(rt.as_str());
    let xt = string_or(c.file_url, "");
    let extension = url_extension(xt.as_str());
    Post {
        id: match c.id {
            Some(i) => i,
            None => 0,
        },
        website: ImageBoards::Gelbooru,
        md5: string_or(c.md5, "unknown"),
        url: xt,
        extension: Extension::guess_format(extension.as_str()),
        tags: tag_list,
        rating,
    }
}

/// API logic for Gelbooru.
#[derive(Debug, Clone, Copy)]
pub struct GelbooruApi;

impl GelbooruApi {
    pub fn new() -> (r: Self) {
        GelbooruApi
    }
}

impl SiteApi for GelbooruApi {
    type PostListResponse = GelbooruTopLevel;
    type SinglePostResponse = GelbooruTopLevel;
    type PoolDetailsResponse = ();

    /// The page number counts from 0 in the `pid` parameter.
    open spec fn spec_posts_url(&self, base: Seq<char>, page: u16, limit: u16, tags: Seq<char>) -> Seq<
        char,
    > {
        base + "&limit="@ + decimal(limit as nat) + "&pid="@ + decimal(
            (if page > 0 {
                page - 1
            } else {
                0
            }) as nat,
        ) + tags_param(tags)
    }

    open spec fn spec_single_post_url(&self, base: Seq<char>, post_id: u32) -> Seq<char> {
        base + "?page=dapi&s=post&q=index&json=1&id="@ + decimal(post_id as nat)
    }

    /// Gelbooru has no pools.
    open spec fn spec_pool_details_url(&self, base: Seq<char>, pool_id: u32) -> Seq<char> {
        Seq::empty()
    }

    open spec fn spec_query_tags(&self, tags: Seq<Seq<char>>) -> Seq<char> {
        joined_tags(tags)
    }

    open spec fn spec_queue_tags(&self, tags: Seq<Seq<char>>) -> Seq<Seq<char>> {
        tags
    }

    open spec fn spec_page_limit(&self) -> u16 {
        100
    }

    open spec fn spec_stops_after(&self, n: nat) -> bool {
        n == 0
    }

    open spec fn spec_page_delay_ms(&self) -> Option<u64> {
        Some(500)
    }

    open spec fn spec_post_delay_ms(&self) -> u64 {
        500
    }

    open spec fn spec_board(&self) -> ImageBoards {
        ImageBoards::Gelbooru
    }

    open spec fn spec_feature_bits() -> u8 {
        0b0000_0111
    }

    open spec fn spec_list_posts(&self, response: GelbooruTopLevel) -> Option<Seq<PostView>> {
        Some(gelbooru_posts(response))
    }

    /// A single post response must hold exactly one post with a file URL.
    open spec fn spec_single_post(&self, response: GelbooruTopLevel) -> Option<PostView> {
        if gelbooru_posts(response).len() == 1 {
            Some(gelbooru_posts(response)[0])
        } else {
            None
        }
    }

    /// Gelbooru has no pools.
    open spec fn spec_pool_ids(&self, response: ()) -> Option<Seq<u64>> {
        None
    }

    /// Keeps the posts that have a file URL and maps them, in order.
    fn map_post_list_response(&self, response: GelbooruTopLevel) -> (r: Result<Vec<Post>, ExtractorError>)
        ensures
            r matches Ok(v) && posts_view(v@) == gelbooru_posts(response),
    {
        let ghost input = response.post@;
        let ghost pred = |p: GelbooruPost| p.file_url is Some;
        let ghost f = |p: GelbooruPost| gelbooru_post(p);
        let mut out: Vec<Post> = Vec::new();
        for c in it: response.post
            invariant
                it.seq() == input,
                pred == (|p: GelbooruPost| p.file_url is Some),
                f == (|p: GelbooruPost| gelbooru_post(p)),
                posts_view(out@) == input.take(it.index() as int).filter(pred).map_values(f),
        {
            proof {
                super::lemma_filter_map_step(input, it.index() as int, pred, f);
            }
            let ghost before = posts_view(out@);
            if c.file_url.is_some() {
                let ghost cc = c;
                let p = map_gelbooru_post(c);
                out.push(p);
                assert(posts_view(out@) =~= before.push(f(cc)));
            }
        }
        assert(input.take(input.len() as int) =~= input);
        Ok(out)
    }

    /// The one post of the response; none is `ZeroPosts`, more than one an
    /// invalid response.
    fn map_single_post_response(&self, response: GelbooruTopLevel) -> (r: Result<Post, ExtractorError>)
        ensures
            gelbooru_posts(response).len() == 1 ==> (r matches Ok(p) && p@ == gelbooru_posts(
                response,
            )[0]),
            gelbooru_posts(response).len() == 0 ==> (r matches Err(ExtractorError::ZeroPosts)),
            gelbooru_posts(response).len() > 1 ==> (r matches Err(
                ExtractorError::InvalidServerResponse,
            )),
    {
        let ghost expected = gelbooru_posts(response);
        let mut posts = match self.map_post_list_response(response) {
            Ok(p) => p,
            Err(e) => {
                return Err(e);
            },
        };
        if posts.len() == 1 {
            let p = posts.remove(0);
            Ok(p)
        } else if posts.len() == 0 {
            Err(ExtractorError::ZeroPosts)
        } else {
            Err(ExtractorError::InvalidServerResponse)
        }
    }

    /// `base_url?page=dapi&s=post&q=index&json=1&id=post_id`.
    fn single_post_url(&self, base_url: &str, post_id: u32) -> (r: String) {
        let mut url = String::from_str(base_url);
        url.append("?page=dapi&s=post&q=index&json=1&id=");
        let n = u64_to_decimal(post_id as u64);
        url.append(n.as_str());
        url
    }

    /// `base_url&limit=limit&pid=page-1`, then `&tags=` and the tags if any.
    fn posts_url(&self, base_url_with_query: &str, page_num: u16, limit: u16, tags_query_string: &str) -> (r:
        String) {
        let pid: u16 = if page_num > 0 { page_num - 1 } else { 0 };
        let mut url = String::from_str(base_url_with_query);
        url.append("&limit=");
        let l = u64_to_decimal(limit as u64);
        url.append(l.as_str());
        url.append("&pid=");
        let p = u64_to_decimal(pid as u64);
        url.append(p.as_str());
        push_tags_param(&mut url, tags_query_string);
        url
    }

    /// All tags joined with `+` for the query; all tags for the queue.
    fn process_tags(&mut self, input_tags: &[String]) -> (r: (String, Vec<String>)) {
        let all = clone_strings(input_tags);
        let tag_string = join_tags(&all);
        (tag_string, all)
    }

    fn full_search_page_limit(&self) -> (r: u16) {
        100
    }

    fn full_search_post_limit_break_condition(&self, posts_fetched_this_page: usize) -> (r: bool) {
        posts_fetched_this_page == 0
    }

    fn full_search_api_call_delay(&self) -> (r: Option<u64>) {
        Some(500)
    }

    fn multi_get_post_api_call_delay(&self) -> (r: u64) {
        500
    }

    fn imageboard_type(&self) -> (r: ImageBoards) {
        ImageBoards::Gelbooru
    }

    /// Asynchronous fetch, tag search and single post fetch.
    fn features() -> (r: ExtractorFeatures) {
        assert(0b0000_0111u8 & 0b0001_1111u8 == 0b0000_0111u8) by (bit_vector);
        ExtractorFeatures::from_bits_truncate(0b0000_0111)
    }

    /// Gelbooru has no pools: the empty string.
    fn pool_details_url(&self, base_url: &str, pool_id: u32) -> (r: String) {
        String::new()
    }

    fn map_pool_details_to_post_ids_with_order(&self, response: ()) -> (r: Result<
        PoolIndex,
        ExtractorError,
    >)
        ensures
            r matches Err(ExtractorError::UnsupportedOperation),
    {
        Err(ExtractorError::UnsupportedOperation)
    }

    fn pool_post_ids(&self, response: ()) -> (r: Result<Vec<u64>, ExtractorError>)
        ensures
            r matches Err(ExtractorError::UnsupportedOperation),
    {
        Err(ExtractorError::UnsupportedOperation)
    }
}

} // verus!
