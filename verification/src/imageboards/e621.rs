//! Post extractor API for `https://e621.net`.
//!
//! e621 supports authentication and a native blacklist defined in the user's
//! profile page.
use vstd::prelude::*;

use super::{
    join_tags, joined_tags, json_item_url, json_item_url_of, order_map, pool_order_map,
    push_tags_param, str_or, string_or, tags_param,
};
use crate::caps::ExtractorFeatures;
use crate::error::ExtractorError;
use crate::extractor::SiteApi;
use crate::hashing::PoolIndex;
use crate::post::{
    append_tags, extension_from_str, make_tags, posts_view, rating_from_str, tags_view, typed_tags,
    Extension, ImageBoards, Post, PostView, Rating, Tag, TagType, TagView,
};
use crate::text::{clone_strings, decimal, strings_view, u64_to_decimal};

verus! {

/// A page of posts as the e621 API returns it.
#[derive(Debug)]
pub struct E621TopLevel {
    pub posts: Vec<E621Post>,
}

/// A single post response of the e621 API.
#[derive(Debug)]
pub struct E621SinglePostTopLevel {
    pub post: E621Post,
}

/// A post as the e621 API returns it.
#[derive(Debug)]
pub struct E621Post {
    pub id: Option<u64>,
    pub file: E621File,
    pub tags: Tags,
    pub rating: String,
}

/// The file of an e621 post.
#[derive(Debug)]
pub struct E621File {
    pub ext: Option<String>,
    pub md5: Option<String>,
    pub url: Option<String>,
}

/// The user record e621 returns on authentication.
#[derive(Debug)]
pub struct E621AuthUser {
    pub success: Option<bool>,
    pub message: Option<String>,
    pub id: Option<u64>,
    pub name: Option<String>,
    pub blacklisted_tags: Option<String>,
}

/// The tags of an e621 post, by category.
#[derive(Debug)]
pub struct Tags {
    pub general: Vec<String>,
    pub species: Vec<String>,
    pub character: Vec<String>,
    pub copyright: Vec<String>,
    pub artist: Vec<String>,
    pub lore: Vec<String>,
    pub meta: Vec<String>,
}

/// The post ids of an e621 pool, in pool order.
#[derive(Debug)]
pub struct E621PoolList {
    pub post_ids: Vec<u64>,
}

/// The tags of an e621 post in the order general, species, character,
/// copyright, artist, lore, meta.
pub open spec fn e621_tags(t: Tags) -> Seq<TagView> {
    typed_tags(strings_view(t.general@), TagType::General) + typed_tags(
        strings_view(t.species@),
        TagType::Species,
    ) + typed_tags(strings_view(t.character@), TagType::Character) + typed_tags(
        strings_view(t.copyright@),
        TagType::Copyright,
    ) + typed_tags(strings_view(t.artist@), TagType::Author) + typed_tags(
        strings_view(t.lore@),
        TagType::Lore,
    ) + typed_tags(strings_view(t.meta@), TagType::Meta)
}

/// Whether the post has the id, file URL and md5 a download needs.
pub open spec fn e621_complete(p: E621Post) -> bool {
    p.id is Some && p.file.url is Some && p.file.md5 is Some
}

/// An e621 post with id, URL and md5 present.
pub open spec fn e621_post(p: E621Post) -> PostView {
    PostView {
        id: match p.id {
            Some(i) => i,
            None => 0,
        },
        website: ImageBoards::E621,
        md5: str_or(p.file.md5, ""@),
        url: str_or(p.file.url, ""@),
        extension: extension_from_str(str_or(p.file.ext, ""@)),
        tags: e621_tags(p.tags),
        rating: rating_from_str(p.rating@),
    }
}

impl Tags {
    /// The tags of all categories, in the order general, species, character,
    /// copyright, artist, lore, meta.
    pub fn map_tags(&self) -> (r: Vec<Tag>)
        ensures
            tags_view(r@) == e621_tags(*self),
    {
        let mut tag_list = make_tags(&self.general, TagType::General);
        append_tags(&mut tag_list, make_tags(&self.species, TagType::Species));
        append_tags(&mut tag_list, make_tags(&self.character, TagType::Character));
        append_tags(&mut tag_list, make_tags(&self.copyright, TagType::Copyright));
        append_tags(&mut tag_list, make_tags(&self.artist, TagType::Author));
        append_tags(&mut tag_list, make_tags(&self.lore, TagType::Lore));
        append_tags(&mut tag_list, make_tags(&self.meta, TagType::Meta));
        tag_list
    }
}

/// The texts of the category of `t` whose tags get the kind `kind`: the
/// artists are authors; `Any` names no category.
pub open spec fn e621_category(t: Tags, kind: TagType) -> Seq<Seq<char>> {
    match kind {
        TagType::General => strings_view(t.general@),
        TagType::Species => strings_view(t.species@),
        TagType::Character => strings_view(t.character@),
        TagType::Copyright => strings_view(t.copyright@),
        TagType::Author => strings_view(t.artist@),
        TagType::Lore => strings_view(t.lore@),
        TagType::Meta => strings_view(t.meta@),
        TagType::Any => Seq::empty(),
    }
}

/// The mapped tags of an e621 post hold every tag of every category, each
/// with the kind of its category, and nothing else: as many tags as the
/// categories hold together.
pub proof fn lemma_e621_tags_complete(t: Tags)
    ensures
        e621_tags(t).len() == t.general.len() + t.species.len() + t.character.len()
            + t.copyright.len() + t.artist.len() + t.lore.len() + t.meta.len(),
        forall|kind: TagType, i: int|
            0 <= i < e621_category(t, kind).len() ==> e621_tags(t).contains(
                TagView { text: #[trigger] e621_category(t, kind)[i], kind },
            ),
        forall|k: int|
            0 <= k < e621_tags(t).len() ==> e621_category(t, (#[trigger] e621_tags(t)[k]).kind).contains(
                e621_tags(t)[k].text,
            ),
{
    let g = typed_tags(strings_view(t.general@), TagType::General);
    let sp = typed_tags(strings_view(t.species@), TagType::Species);
    let ch = typed_tags(strings_view(t.character@), TagType::Character);
    let co = typed_tags(strings_view(t.copyright@), TagType::Copyright);
    let ar = typed_tags(strings_view(t.artist@), TagType::Author);
    let lo = typed_tags(strings_view(t.lore@), TagType::Lore);
    let me = typed_tags(strings_view(t.meta@), TagType::Meta);
    let all = e621_tags(t);
    assert(all == g + sp + ch + co + ar + lo + me);
    let o1 = g.len() as int;
    let o2 = o1 + sp.len();
    let o3 = o2 + ch.len();
    let o4 = o3 + co.len();
    let o5 = o4 + ar.len();
    let o6 = o5 + lo.len();
    assert forall|kind: TagType, i: int|
        0 <= i < e621_category(t, kind).len() implies all.contains(
        TagView { text: #[trigger] e621_category(t, kind)[i], kind },
    ) by {
        let x = TagView { text: e621_category(t, kind)[i], kind };
        match kind {
            TagType::General => { assert(all[i] == x); },
            TagType::Species => { assert(all[o1 + i] == x); },
            TagType::Character => { assert(all[o2 + i] == x); },
            TagType::Copyright => { assert(all[o3 + i] == x); },
            TagType::Author => { assert(all[o4 + i] == x); },
            TagType::Lore => { assert(all[o5 + i] == x); },
            TagType::Meta => { assert(all[o6 + i] == x); },
            TagType::Any => {},
        }
    }
    assert forall|k: int| 0 <= k < all.len() implies e621_category(
        t,
        (#[trigger] all[k]).kind,
    ).contains(all[k].text) by {
        if k < o1 {
            assert(e621_category(t, TagType::General)[k] == all[k].text);
        } else if k < o2 {
            assert(e621_category(t, TagType::Species)[k - o1] == all[k].text);
        } else if k < o3 {
            assert(e621_category(t, TagType::Character)[k - o2] == all[k].text);
        } else if k < o4 {
            assert(e621_category(t, TagType::Copyright)[k - o3] == all[k].text);
        } else if k < o5 {
            assert(e621_category(t, TagType::Author)[k - o4] == all[k].text);
        } else if k < o6 {
            assert(e621_category(t, TagType::Lore)[k - o5] == all[k].text);
        } else {
            assert(e621_category(t, TagType::Meta)[k - o6] == all[k].text);
        }
    }
}

fn map_complete(item: E621Post) -> (r: Post)
    requires
        e621_complete(item),
    ensures
        r@ == e621_post(item),
{
    let tags = item.tags.map_tags();
    let rating = Rating::from_rating_str(item.rating.as_str());
    let ext = string_or(item.file.ext, "");
    Post {
        id: match item.id {
            Some(i) => i,
            None => 0,
        },
        website: ImageBoards::E621,
        url: string_or(item.file.url, ""),
        md5: string_or(item.file.md5, ""),
        extension: Extension::guess_format(ext.as_str()),
        tags,
        rating,
    }
}

fn is_complete(item: &E621Post) -> (r: bool)
    ensures
        r == e621_complete(*item),
{
    item.id.is_some() && item.file.url.is_some() && item.file.md5.is_some()
}

/// API logic for e621.
#[derive(Debug, Clone, Copy)]
pub struct E621Api;

impl E621Api {
    pub fn new() -> (r: Self) {
        E621Api
    }
}

impl SiteApi for E621Api {
    type PostListResponse = E621TopLevel;
    type SinglePostResponse = E621SinglePostTopLevel;
    type PoolDetailsResponse = E621PoolList;

    open spec fn spec_posts_url(&self, base: Seq<char>, page: u16, limit: u16, tags: Seq<char>) -> Seq<
        char,
    > {
        base + "?limit="@ + decimal(limit as nat) + "&page="@ + decimal(page as nat) + tags_param(tags)
    }

    open spec fn spec_single_post_url(&self, base: Seq<char>, post_id: u32) -> Seq<char> {
        json_item_url(base, post_id)
    }

    open spec fn spec_pool_details_url(&self, base: Seq<char>, pool_id: u32) -> Seq<char> {
        json_item_url(base, pool_id)
    }

    open spec fn spec_query_tags(&self, tags: Seq<Seq<char>>) -> Seq<char> {
        joined_tags(tags)
    }

    open spec fn spec_queue_tags(&self, tags: Seq<Seq<char>>) -> Seq<Seq<char>> {
        tags
    }

    /// A download session crawls at most 100 pages, well within the 750
    /// pages the API serves to unauthenticated users.
    open spec fn spec_page_limit(&self) -> u16 {
        100
    }

    /// A page with fewer than 320 posts (the page size) is the last.
    open spec fn spec_stops_after(&self, n: nat) -> bool {
        n < 320
    }

    open spec fn spec_page_delay_ms(&self) -> Option<u64> {
        Some(500)
    }

    open spec fn spec_post_delay_ms(&self) -> u64 {
        500
    }

    open spec fn spec_board(&self) -> ImageBoards {
        ImageBoards::E621
    }

    open spec fn spec_feature_bits() -> u8 {
        0b0001_1111
    }

    open spec fn spec_list_posts(&self, response: E621TopLevel) -> Option<Seq<PostView>> {
        Some(response.posts@.filter(|p: E621Post| e621_complete(p)).map_values(|p: E621Post| e621_post(p)))
    }

    open spec fn spec_single_post(&self, response: E621SinglePostTopLevel) -> Option<PostView> {
        if e621_complete(response.post) {
            Some(e621_post(response.post))
        } else {
            None
        }
    }

    open spec fn spec_pool_ids(&self, response: E621PoolList) -> Option<Seq<u64>> {
        Some(response.post_ids@)
    }

    /// Maps the posts that have id, file URL and md5; skips the others.
    fn map_post_list_response(&self, response: E621TopLevel) -> (r: Result<Vec<Post>, ExtractorError>)
        ensures
            r matches Ok(v) && posts_view(v@) == response.posts@.filter(
                |p: E621Post| e621_complete(p),
            ).map_values(|p: E621Post| e621_post(p)),
    {
        let ghost input = response.posts@;
        let ghost pred = |p: E621Post| e621_complete(p);
        let ghost f = |p: E621Post| e621_post(p);
        let mut posts: Vec<Post> = Vec::new();
        for item in it: response.posts
            invariant
                it.seq() == input,
                pred == (|p: E621Post| e621_complete(p)),
                f == (|p: E621Post| e621_post(p)),
                posts_view(posts@) == input.take(it.index() as int).filter(pred).map_values(f),
        {
            proof {
                super::lemma_filter_map_step(input, it.index() as int, pred, f);
            }
            let ghost before = posts_view(posts@);
            if is_complete(&item) {
                let ghost cc = item;
                let p = map_complete(item);
                posts.push(p);
                assert(posts_view(posts@) =~= before.push(f(cc)));
            }
        }
        assert(input.take(input.len() as int) =~= input);
        Ok(posts)
    }

    /// Maps the post, which must have id, file URL and md5.
    fn map_single_post_response(&self, response: E621SinglePostTopLevel) -> (r: Result<
        Post,
        ExtractorError,
    >)
        ensures
            !e621_complete(response.post) ==> (r matches Err(ExtractorError::PostMapFailure)),
            e621_complete(response.post) ==> (r matches Ok(p) && p@ == e621_post(response.post)),
    {
        if !is_complete(&response.post) {
            return Err(ExtractorError::PostMapFailure);
        }
        Ok(map_complete(response.post))
    }

    /// `base_url/post_id.json`.
    fn single_post_url(&self, base_url: &str, post_id: u32) -> (r: String) {
        json_item_url_of(base_url, post_id)
    }

    /// `base_url?limit=limit&page=page`, then `&tags=` and the tags if any.
    fn posts_url(&self, base_url: &str, page_num: u16, limit: u16, tags_query_string: &str) -> (r:
        String) {
        let mut url = String::from_str(base_url);
        url.append("?limit=");
        let l = u64_to_decimal(limit as u64);
        url.append(l.as_str());
        url.append("&page=");
        let p = u64_to_decimal(page_num as u64);
        url.append(p.as_str());
        push_tags_param(&mut url, tags_query_string);
        url
    }

    /// All tags joined with `+` for the query; all tags for the queue.
    fn process_tags(&mut self, input_tags: &[String]) -> (r: (String, Vec<String>)) {
        let all = clone_strings(input_tags);
        let tags_for_api = join_tags(&all);
        (tags_for_api, all)
    }

    fn full_search_page_limit(&self) -> (r: u16) {
        100
    }

    fn full_search_post_limit_break_condition(&self, posts_fetched_this_page: usize) -> (r: bool) {
        posts_fetched_this_page < 320
    }

    fn full_search_api_call_delay(&self) -> (r: Option<u64>) {
        Some(500)
    }

    fn multi_get_post_api_call_delay(&self) -> (r: u64) {
        500
    }

    fn imageboard_type(&self) -> (r: ImageBoards) {
        ImageBoards::E621
    }

    /// Asynchronous fetch, tag search, single post fetch, pool download and
    /// authentication.
    fn features() -> (r: ExtractorFeatures) {
        assert(0b0001_1111u8 & 0b0001_1111u8 == 0b0001_1111u8) by (bit_vector);
        ExtractorFeatures::from_bits_truncate(0b0001_1111)
    }

    /// `base_url/pool_id.json`.
    fn pool_details_url(&self, base_url: &str, pool_id: u32) -> (r: String) {
        json_item_url_of(base_url, pool_id)
    }

    /// Each post id of the pool mapped to its 0-based position.
    fn map_pool_details_to_post_ids_with_order(&self, response: E621PoolList) -> (r: Result<
        PoolIndex,
        ExtractorError,
    >)
        ensures
            r matches Ok(m) && m@ == pool_order_map(response.post_ids@),
    {
        Ok(order_map(&response.post_ids))
    }

    /// The post ids of the pool, in order.
    fn pool_post_ids(&self, response: E621PoolList) -> (r: Result<Vec<u64>, ExtractorError>)
        ensures
            r matches Ok(v) && v@ == response.post_ids@,
    {
        Ok(response.post_ids)
    }
}

} // verus!
