//! Post extractor API for `https://danbooru.donmai.us`.
//!
//! Danbooru supports authentication and a native blacklist defined in the
//! user's profile page.
use vstd::prelude::*;

use super::{
    join_tags, joined_tags, json_item_url, json_item_url_of, lemma_filter_map_step, opt_split_tags,
    order_map, pool_order_map, push_opt_tags, push_tags_param, str_or, string_or, tags_param,
};
use crate::caps::ExtractorFeatures;
use crate::error::ExtractorError;
use crate::extractor::SiteApi;
use crate::hashing::PoolIndex;
use crate::post::{
    extension_from_str, posts_view, rating_from_str, tags_view, Extension, ImageBoards, Post,
    PostView, Rating, TagType, TagView,
};
use crate::text::{decimal, strings_view, u64_to_decimal, clone_strings};

verus! {

/// The post ids of a Danbooru pool, in pool order.
#[derive(Debug)]
pub struct DanbooruPoolList {
    pub post_ids: Vec<u64>,
}

/// A post as the Danbooru API returns it.
#[derive(Debug)]
pub struct DanbooruPost {
    pub id: Option<u64>,
    pub md5: Option<String>,
    pub file_url: Option<String>,
    pub tag_string: Option<String>,
    pub tag_string_general: Option<String>,
    pub tag_string_character: Option<String>,
    pub tag_string_copyright: Option<String>,
    pub tag_string_artist: Option<String>,
    pub tag_string_meta: Option<String>,
    pub file_ext: Option<String>,
    pub rating: Option<String>,
}

/// The tags of a Danbooru post: artists, copyrights, characters, general
/// tags and meta tags, each list split at spaces.
pub open spec fn danbooru_tags(p: DanbooruPost) -> Seq<TagView> {
    opt_split_tags(p.tag_string_artist, TagType::Author) + opt_split_tags(
        p.tag_string_copyright,
        TagType::Copyright,
    ) + opt_split_tags(p.tag_string_character, TagType::Character) + opt_split_tags(
        p.tag_string_general,
        TagType::General,
    ) + opt_split_tags(p.tag_string_meta, TagType::Meta)
}

/// The rating of a Danbooru post: `s` (sensitive) counts as questionable,
/// a missing rating as general.
pub open spec fn danbooru_rating(p: DanbooruPost) -> Rating {
    let rt = str_or(p.rating, "g"@);
    if rt == "s"@ {
        Rating::Questionable
    } else {
        rating_from_str(rt)
    }
}

/// A Danbooru post of a post list, missing fields taken as zero or empty.
pub open spec fn danbooru_post(p: DanbooruPost) -> PostView {
    PostView {
        id: match p.id {
            Some(i) => i,
            None => 0,
        },
        website: ImageBoards::Danbooru,
        md5: str_or(p.md5, ""@),
        url: str_or(p.file_url, ""@),
        extension: extension_from_str(str_or(p.file_ext, ""@)),
        tags: danbooru_tags(p),
        rating: danbooru_rating(p),
    }
}

/// The rating a mapped Danbooru post gets from the rating text of the
/// response: `s` (sensitive) is questionable, and a missing rating general;
/// every other text is read as the rating names are: `g`/`general`,
/// `safe`, `q`/`questionable`, `e`/`explicit`, anything else unknown.
pub proof fn lemma_danbooru_rating_table(p: DanbooruPost)
    ensures
        p.rating is None ==> danbooru_post(p).rating == Rating::General,
        p.rating matches Some(r) && r@ == "s"@ ==> danbooru_post(p).rating == Rating::Questionable,
        p.rating matches Some(r) && (r@ == "e"@ || r@ == "explicit"@) ==> danbooru_post(p).rating
            == Rating::Explicit,
        p.rating matches Some(r) && (r@ == "q"@ || r@ == "questionable"@) ==> danbooru_post(
            p,
        ).rating == Rating::Questionable,
        p.rating matches Some(r) && (r@ == "g"@ || r@ == "general"@) ==> danbooru_post(p).rating
            == Rating::General,
        p.rating matches Some(r) && r@ == "safe"@ ==> danbooru_post(p).rating == Rating::Safe,
        p.rating matches Some(r) && r@ != "s"@ && r@ != "e"@ && r@ != "explicit"@ && r@ != "q"@
            && r@ != "questionable"@ && r@ != "g"@ && r@ != "general"@ && r@ != "safe"@
            ==> danbooru_post(p).rating == Rating::Unknown,
{
    reveal_strlit("g");
    reveal_strlit("general");
    reveal_strlit("s");
    reveal_strlit("safe");
    reveal_strlit("q");
    reveal_strlit("questionable");
    reveal_strlit("e");
    reveal_strlit("explicit");
    assert("g"@[0] != "s"@[0] && "g"@[0] != "q"@[0] && "g"@[0] != "e"@[0]);
    assert("s"@[0] != "q"@[0] && "s"@[0] != "e"@[0] && "q"@[0] != "e"@[0]);
    assert("safe"@.len() != "general"@.len() && "safe"@.len() != "explicit"@.len());
    assert("general"@.len() != "questionable"@.len() && "general"@.len() != "explicit"@.len());
    assert("questionable"@.len() != "explicit"@.len() && "safe"@.len() != "questionable"@.len());
}

pub open spec fn has_file_url(p: DanbooruPost) -> bool {
    p.file_url is Some
}

impl DanbooruPost {
    /// The tags of the post, in the order artist, copyright, character,
    /// general, meta.
    pub fn map_tags(&self) -> (r: Vec<crate::post::Tag>)
        ensures
            tags_view(r@) == danbooru_tags(*self),
    {
        let mut tags: Vec<crate::post::Tag> = Vec::new();
        push_opt_tags(&mut tags, &self.tag_string_artist, TagType::Author);
        push_opt_tags(&mut tags, &self.tag_string_copyright, TagType::Copyright);
        push_opt_tags(&mut tags, &self.tag_string_character, TagType::Character);
        push_opt_tags(&mut tags, &self.tag_string_general, TagType::General);
        push_opt_tags(&mut tags, &self.tag_string_meta, TagType::Meta);
        assert(tags_view(tags@) =~= danbooru_tags(*self));
        tags
    }
}

fn danbooru_rating_of(p: &DanbooruPost) -> (r: Rating)
    ensures
        r == danbooru_rating(*p),
{
    let rt = match &p.rating {
        Some(s) => s.as_str(),
        None => "g",
    };
    if crate::text::str_eq(rt, "s") {
        Rating::Questionable
    } else {
        Rating::from_rating_str(rt)
    }
}

/// Maps one post of a post list.
fn map_list_post(c: DanbooruPost) -> (r: Post)
    ensures
        r@ == danbooru_post(c),
{
    let tag_list = c.map_tags();
    let rating = danbooru_rating_of(&c);
    let ghost cc = c;
    let ext = string_or(c.file_ext, "");
    Post {
        id: match c.id {
            Some(i) => i,
            None => 0,
        },
        website: ImageBoards::Danbooru,
        md5: string_or(c.md5, ""),
        url: string_or(c.file_url, ""),
        extension: Extension::guess_format(ext.as_str()),
        tags: tag_list,
        rating,
    }
}

/// API logic for Danbooru.
#[derive(Debug, Clone, Copy)]
pub struct DanbooruApi {}

impl DanbooruApi {
    pub fn new() -> (r: Self) {
        DanbooruApi {}
    }
}

impl SiteApi for DanbooruApi {
    type PostListResponse = Vec<DanbooruPost>;
    type SinglePostResponse = DanbooruPost;
    type PoolDetailsResponse = DanbooruPoolList;

    open spec fn spec_posts_url(&self, base: Seq<char>, page: u16, limit: u16, tags: Seq<char>) -> Seq<
        char,
    > {
        base + "?limit="@ + decimal(limit as nat) + "&page="@ + decimal(page as nat) + tags_param(tags)
    }

    open spec fn spec_single_post_url(&self, base: Seq<char>, post_id: u32) -> Seq<char> {
        json_item_url(base, post_id)
    }

    open spec fn spec_pool_details_url(&self, base: Seq<char>, pool_id: u32) -> Seq<char> {
        json_item_url(base, pool_id)
    }

    /// Danbooru searches by at most two tags: the first two make the query.
    open spec fn spec_query_tags(&self, tags: Seq<Seq<char>>) -> Seq<char> {
        joined_tags(if tags.len() > 2 { tags.take(2) } else { tags })
    }

    open spec fn spec_queue_tags(&self, tags: Seq<Seq<char>>) -> Seq<Seq<char>> {
        tags
    }

    open spec fn spec_page_limit(&self) -> u16 {
        100
    }

    open spec fn spec_stops_after(&self, n: nat) -> bool {
        n == 0
    }

    open spec fn spec_page_delay_ms(&self) -> Option<u64> {
        Some(500)
    }

    open spec fn spec_post_delay_ms(&self) -> u64 {
        500
    }

    open spec fn spec_board(&self) -> ImageBoards {
        ImageBoards::Danbooru
    }

    open spec fn spec_feature_bits() -> u8 {
        0b0001_1111
    }

    open spec fn spec_list_posts(&self, response: Vec<DanbooruPost>) -> Option<Seq<PostView>> {
        Some(response@.filter(|p: DanbooruPost| has_file_url(p)).map_values(|p: DanbooruPost| danbooru_post(p)))
    }

    /// A single post needs its id, md5, file URL and extension.
    open spec fn spec_single_post(&self, response: DanbooruPost) -> Option<PostView> {
        if response.id is Some && response.md5 is Some && response.file_url is Some
            && response.file_ext is Some {
            Some(danbooru_post(response))
        } else {
            None
        }
    }

    open spec fn spec_pool_ids(&self, response: DanbooruPoolList) -> Option<Seq<u64>> {
        Some(response.post_ids@)
    }

    /// Keeps the posts that have a file URL and maps them, in order.
    fn map_post_list_response(&self, posts: Vec<DanbooruPost>) -> (r: Result<Vec<Post>, ExtractorError>)
        ensures
            r matches Ok(v) && posts_view(v@) == posts@.filter(|p: DanbooruPost| has_file_url(p)).map_values(
                |p: DanbooruPost| danbooru_post(p),
            ),
    {
        let ghost input = posts@;
        let ghost pred = |p: DanbooruPost| has_file_url(p);
        let ghost f = |p: DanbooruPost| danbooru_post(p);
        let mut out: Vec<Post> = Vec::new();
        for c in it: posts
            invariant
                it.seq() == input,
                pred == (|p: DanbooruPost| has_file_url(p)),
                f == (|p: DanbooruPost| danbooru_post(p)),
                posts_view(out@) == input.take(it.index() as int).filter(pred).map_values(f),
        {
            proof {
                lemma_filter_map_step(input, it.index() as int, pred, f);
            }
            let ghost before = posts_view(out@);
            if c.file_url.is_some() {
                let ghost cc = c;
                let p = map_list_post(c);
                out.push(p);
                assert(posts_view(out@) =~= before.push(f(cc)));
            }
        }
        assert(input.take(input.len() as int) =~= input);
        Ok(out)
    }

    /// Maps one post; each of id, md5, file URL and extension must be present,
    /// checked in that order.
    fn map_single_post_response(&self, post_model: DanbooruPost) -> (r: Result<Post, ExtractorError>)
        ensures
            post_model.id is None ==> (r matches Err(ExtractorError::MissingField { field })
                && field@ == "id"@),
            post_model.id is Some && post_model.md5 is None ==> (r matches Err(
                ExtractorError::MissingField { field },
            ) && field@ == "md5"@),
            post_model.id is Some && post_model.md5 is Some && post_model.file_url is None ==> (
            r matches Err(ExtractorError::MissingField { field }) && field@ == "url"@),
            post_model.id is Some && post_model.md5 is Some && post_model.file_url is Some
                && post_model.file_ext is None ==> (r matches Err(
                ExtractorError::MissingField { field },
            ) && field@ == "extension"@),
            post_model.id is Some && post_model.md5 is Some && post_model.file_url is Some
                && post_model.file_ext is Some ==> (r matches Ok(p) && p@ == danbooru_post(
                post_model,
            )),
    {
        let tag_list = post_model.map_tags();
        let rating = danbooru_rating_of(&post_model);
        let id = match post_model.id {
            Some(i) => i,
            None => {
                return Err(ExtractorError::MissingField { field: String::from_str("id") });
            },
        };
        let md5 = match post_model.md5 {
            Some(m) => m,
            None => {
                return Err(ExtractorError::MissingField { field: String::from_str("md5") });
            },
        };
        let url = match post_model.file_url {
            Some(u) => u,
            None => {
                return Err(ExtractorError::MissingField { field: String::from_str("url") });
            },
        };
        let ext = match post_model.file_ext {
            Some(e) => e,
            None => {
                return Err(ExtractorError::MissingField { field: String::from_str("extension") });
            },
        };
        Ok(
            Post {
                id,
                website: ImageBoards::Danbooru,
                md5,
                url,
                extension: Extension::guess_format(ext.as_str()),
                tags: tag_list,
                rating,
            },
        )
    }

    /// `base_url/post_id.json`.
    fn single_post_url(&self, base_url: &str, post_id: u32) -> (r: String) {
        json_item_url_of(base_url, post_id)
    }

    /// `base_url?limit=limit&page=page`, then `&tags=` and the tags if any.
    fn posts_url(&self, base_url: &str, page_num: u16, limit: u16, tags_query_string: &str) -> (r:
        String) {
        let mut url = String::from_str(base_url);
        url.append("?limit=");
        let l = u64_to_decimal(limit as u64);
        url.append(l.as_str());
        url.append("&page=");
        let p = u64_to_decimal(page_num as u64);
        url.append(p.as_str());
        push_tags_param(&mut url, tags_query_string);
        url
    }

    /// The first two tags joined with `+` for the query; all tags for the queue.
    fn process_tags(&mut self, input_tags: &[String]) -> (r: (String, Vec<String>)) {
        let mut api_query_tags: Vec<String> = Vec::new();
        let mut i: usize = 0;
        let n: usize = if input_tags.len() > 2 { 2 } else { input_tags.len() };
        while i < n
            invariant
                0 <= i <= n,
                n <= input_tags.len(),
                api_query_tags@ == input_tags@.take(i as int),
            decreases n - i,
        {
            api_query_tags.push(input_tags[i].clone());
            assert(input_tags@.take(i + 1) =~= input_tags@.take(i as int).push(input_tags@[i as int]));
            i += 1;
        }
        let tags_for_query = join_tags(&api_query_tags);
        let tags_for_post_queue = clone_strings(input_tags);
        assert(strings_view(api_query_tags@) =~= (if strings_view(input_tags@).len() > 2 {
            strings_view(input_tags@).take(2)
        } else {
            strings_view(input_tags@)
        }));
        (tags_for_query, tags_for_post_queue)
    }

    fn full_search_page_limit(&self) -> (r: u16) {
        100
    }

    fn full_search_post_limit_break_condition(&self, posts_fetched_this_page: usize) -> (r: bool) {
        posts_fetched_this_page == 0
    }

    fn full_search_api_call_delay(&self) -> (r: Option<u64>) {
        Some(500)
    }

    fn multi_get_post_api_call_delay(&self) -> (r: u64) {
        500
    }

    fn imageboard_type(&self) -> (r: ImageBoards) {
        ImageBoards::Danbooru
    }

    /// Asynchronous fetch, tag search, single post fetch, pool download and
    /// authentication.
    fn features() -> (r: ExtractorFeatures) {
        assert(0b0001_1111u8 & 0b0001_1111u8 == 0b0001_1111u8) by (bit_vector);
        ExtractorFeatures::from_bits_truncate(0b0001_1111)
    }

    /// `base_url/pool_id.json`.
    fn pool_details_url(&self, base_url: &str, pool_id: u32) -> (r: String) {
        json_item_url_of(base_url, pool_id)
    }

    /// Each post id of the pool mapped to its 0-based position.
    fn map_pool_details_to_post_ids_with_order(&self, response: DanbooruPoolList) -> (r: Result<
        PoolIndex,
        ExtractorError,
    >)
        ensures
            r matches Ok(m) && m@ == pool_order_map(response.post_ids@),
    {
        Ok(order_map(&response.post_ids))
    }

    /// The post ids of the pool, in order.
    fn pool_post_ids(&self, response: DanbooruPoolList) -> (r: Result<Vec<u64>, ExtractorError>)
        ensures
            r matches Ok(v) && v@ == response.post_ids@,
    {
        Ok(response.post_ids)
    }
}

} // verus!
