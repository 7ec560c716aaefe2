//! The imageboard APIs: Danbooru, e621, Gelbooru and Moebooru, with the
//! formats their APIs return and how those become posts.
use vstd::prelude::*;

use crate::extractor::SiteApi;
use crate::extractor_config::default_server_spec;
use crate::hashing::{pool_index_insert, pool_index_new, PoolIndex};
use crate::post::{make_tags, tags_view, typed_tags, Tag, TagType, TagView};
use crate::text::{
    decimal, join_seq, join_strings, lemma_split_join, split_char, split_seq, strings_view,
    u64_to_decimal,
};

pub mod danbooru;
pub mod e621;
pub mod gelbooru;
pub mod moebooru;

verus! {

/// The text of an optional string, or `d`.
pub open spec fn str_or(o: Option<String>, d: Seq<char>) -> Seq<char> {
    match o {
        Some(s) => s@,
        None => d,
    }
}

/// Tags of one category from the space-separated words of `s`.
pub open spec fn split_tags_spec(s: Seq<char>, kind: TagType) -> Seq<TagView> {
    typed_tags(split_seq(s, ' '), kind)
}

/// Tags of one category from an optional space-separated string.
pub open spec fn opt_split_tags(o: Option<String>, kind: TagType) -> Seq<TagView> {
    match o {
        Some(s) => split_tags_spec(s@, kind),
        None => Seq::empty(),
    }
}

/// The text after the last `.` of a URL, or the whole URL if it has none.
pub open spec fn url_ext(url: Seq<char>) -> Seq<char> {
    split_seq(url, '.').last()
}

/// Tags joined for an API query: separated by `+`.
pub open spec fn joined_tags(tags: Seq<Seq<char>>) -> Seq<char> {
    join_seq(tags, "+"@)
}

/// Each id mapped to its position; an id listed twice keeps its last position.
pub open spec fn pool_order_map(ids: Seq<u64>) -> Map<u64, usize>
    decreases ids.len(),
{
    if ids.len() == 0 {
        Map::empty()
    } else {
        pool_order_map(ids.drop_last()).insert(ids.last(), (ids.len() - 1) as usize)
    }
}

/// `base` + `/` + id + `.json`.
pub open spec fn json_item_url(base: Seq<char>, id: u32) -> Seq<char> {
    base + "/"@ + decimal(id as nat) + ".json"@
}

/// The tag string, prefixed with `&tags=`, or nothing when there are no tags.
pub open spec fn tags_param(tags: Seq<char>) -> Seq<char> {
    if tags.len() == 0 {
        Seq::empty()
    } else {
        "&tags="@ + tags
    }
}

pub proof fn lemma_filter_map_step<A, B>(
    s: Seq<A>,
    i: int,
    pred: spec_fn(A) -> bool,
    f: spec_fn(A) -> B,
)
    requires
        0 <= i < s.len(),
    ensures
        s.take(i + 1).filter(pred).map_values(f) == (if pred(s[i]) {
            s.take(i).filter(pred).map_values(f).push(f(s[i]))
        } else {
            s.take(i).filter(pred).map_values(f)
        }),
{
    assert(s.take(i + 1) =~= s.take(i).push(s[i]));
    s.take(i).lemma_filter_push(s[i], pred);
    if pred(s[i]) {
        assert(s.take(i).filter(pred).push(s[i]).map_values(f) =~= s.take(i).filter(pred).map_values(
            f,
        ).push(f(s[i])));
    }
}

/// Tags of one category from the space-separated words of `s`.
pub fn split_tags(s: &str, kind: TagType) -> (r: Vec<Tag>)
    ensures
        tags_view(r@) == split_tags_spec(s@, kind),
{
    let words = split_char(s, ' ');
    make_tags(&words, kind)
}

/// Appends the tags from an optional space-separated string.
pub fn push_opt_tags(tags: &mut Vec<Tag>, o: &Option<String>, kind: TagType)
    ensures
        tags_view(final(tags)@) == tags_view(old(tags)@) + opt_split_tags(*o, kind),
{
    match o {
        Some(s) => {
            let t = split_tags(s.as_str(), kind);
            crate::post::append_tags(tags, t);
        },
        None => {
            assert(tags_view(tags@) + Seq::<TagView>::empty() =~= tags_view(tags@));
        },
    }
}

/// The text after the last `.` of a URL.
pub fn url_extension(url: &str) -> (r: String)
    ensures
        r@ == url_ext(url@),
{
    let mut parts = split_char(url, '.');
    proof {
        crate::text::lemma_split_by_nonempty(url@, crate::text::is_char('.'));
    }
    let ghost pv = strings_view(parts@);
    let last = parts.pop().unwrap();
    assert(last@ == pv.last());
    last
}

/// An optional string's text, or `d`.
pub fn string_or(o: Option<String>, d: &str) -> (r: String)
    ensures
        r@ == str_or(o, d@),
{
    match o {
        Some(s) => s,
        None => String::from_str(d),
    }
}

/// Tags joined with `+` for an API query.
pub fn join_tags(tags: &Vec<String>) -> (r: String)
    ensures
        r@ == joined_tags(strings_view(tags@)),
{
    join_strings(tags, "+")
}

/// Each id mapped to its 0-based position in `ids`.
pub fn order_map(ids: &Vec<u64>) -> (r: PoolIndex)
    ensures
        r@ == pool_order_map(ids@),
{
    let mut m = pool_index_new();
    let mut i: usize = 0;
    while i < ids.len()
        invariant
            0 <= i <= ids.len(),
            m@ == pool_order_map(ids@.take(i as int)),
        decreases ids.len() - i,
    {
        pool_index_insert(&mut m, ids[i], i);
        assert(ids@.take(i + 1).drop_last() =~= ids@.take(i as int));
        i += 1;
    }
    assert(ids@.take(ids.len() as int) =~= ids@);
    m
}

/// `base` + `/` + id + `.json`.
pub fn json_item_url_of(base: &str, id: u32) -> (r: String)
    ensures
        r@ == json_item_url(base@, id),
{
    let mut url = String::from_str(base);
    url.append("/");
    let n = u64_to_decimal(id as u64);
    url.append(n.as_str());
    url.append(".json");
    url
}

/// Appends `&tags=` and the tags when there are any.
pub fn push_tags_param(url: &mut String, tags: &str)
    ensures
        final(url)@ == old(url)@ + tags_param(tags@),
{
    if !tags.is_empty() {
        url.append("&tags=");
        url.append(tags);
    } else {
        assert(old(url)@ + Seq::<char>::empty() =~= old(url)@);
    }
}

/// Gelbooru, e621 and Moebooru query by every tag the user gave, in order
/// and joined by `+`; Danbooru, which searches by at most two tags, by the
/// first two.
pub proof fn lemma_query_tags(
    danbooru: danbooru::DanbooruApi,
    e621: e621::E621Api,
    gelbooru: gelbooru::GelbooruApi,
    moebooru: moebooru::MoebooruApi,
    tags: Seq<Seq<char>>,
)
    ensures
        gelbooru.spec_query_tags(tags) == join_seq(tags, "+"@),
        e621.spec_query_tags(tags) == join_seq(tags, "+"@),
        moebooru.spec_query_tags(tags) == join_seq(tags, "+"@),
        tags.len() <= 2 ==> danbooru.spec_query_tags(tags) == join_seq(tags, "+"@),
        tags.len() > 2 ==> danbooru.spec_query_tags(tags) == join_seq(seq![tags[0], tags[1]], "+"@),
{
    if tags.len() > 2 {
        assert(tags.take(2) =~= seq![tags[0], tags[1]]);
    }
}

/// The query of Gelbooru, e621 and Moebooru leaves no tag out: split at
/// `+`, it gives back every tag the user gave, in order, when no tag holds
/// a `+` of its own.
pub proof fn lemma_query_gives_back_tags(
    e621: e621::E621Api,
    gelbooru: gelbooru::GelbooruApi,
    moebooru: moebooru::MoebooruApi,
    tags: Seq<Seq<char>>,
)
    requires
        tags.len() >= 1,
        forall|i: int, j: int| 0 <= i < tags.len() && 0 <= j < tags[i].len() ==> #[trigger] tags[i][j] != '+',
    ensures
        split_seq(gelbooru.spec_query_tags(tags), '+') == tags,
        split_seq(e621.spec_query_tags(tags), '+') == tags,
        split_seq(moebooru.spec_query_tags(tags), '+') == tags,
{
    reveal_strlit("+");
    assert("+"@ =~= seq!['+']);
    lemma_split_join(tags, '+');
}

/// On e621 a page ends a search exactly when it holds fewer posts than the
/// site's page size, 320: a full page of 320 posts means more may follow.
pub proof fn lemma_e621_last_page(e621: e621::E621Api)
    ensures
        default_server_spec("e621"@) is Some,
        default_server_spec("e621"@)->Some_0.max_post_limit == 320,
        forall|n: nat|
            #[trigger] e621.spec_stops_after(n) <==> n < default_server_spec(
                "e621"@,
            )->Some_0.max_post_limit,
        !e621.spec_stops_after(320),
        e621.spec_stops_after(319),
        e621.spec_stops_after(0),
{
    reveal_strlit("e621");
    reveal_strlit("danbooru");
    assert("e621"@.len() != "danbooru"@.len());
}

/// On Danbooru, Gelbooru and Moebooru only an empty page ends a search: a
/// page with any post on it, however short, means more may follow.
pub proof fn lemma_empty_page_ends_search(
    danbooru: danbooru::DanbooruApi,
    gelbooru: gelbooru::GelbooruApi,
    moebooru: moebooru::MoebooruApi,
    n: nat,
)
    ensures
        danbooru.spec_stops_after(n) <==> n == 0,
        gelbooru.spec_stops_after(n) <==> n == 0,
        moebooru.spec_stops_after(n) <==> n == 0,
{
}

/// Every built-in imageboard API crawls at most 100 pages per search.
pub proof fn lemma_page_limits(
    danbooru: danbooru::DanbooruApi,
    e621: e621::E621Api,
    gelbooru: gelbooru::GelbooruApi,
    moebooru: moebooru::MoebooruApi,
)
    ensures
        danbooru.spec_page_limit() == 100,
        e621.spec_page_limit() == 100,
        gelbooru.spec_page_limit() == 100,
        moebooru.spec_page_limit() == 100,
{
}

/// In the order map of ids that are all different, each id maps to its
/// position, and only the ids are keys.
pub proof fn lemma_pool_order_positions(ids: Seq<u64>)
    requires
        ids.no_duplicates(),
        ids.len() <= usize::MAX,
    ensures
        forall|i: int| 0 <= i < ids.len() ==> #[trigger] pool_order_map(ids)[ids[i]] == i,
        forall|k: u64| pool_order_map(ids).contains_key(k) <==> ids.contains(k),
    decreases ids.len(),
{
    if ids.len() > 0 {
        let rest = ids.drop_last();
        assert(rest.no_duplicates());
        lemma_pool_order_positions(rest);
        assert forall|i: int| 0 <= i < ids.len() implies #[trigger] pool_order_map(ids)[ids[i]] == i by {
            if i < ids.len() - 1 {
                assert(ids[i] != ids.last());
                assert(rest[i] == ids[i]);
                assert(pool_order_map(rest)[rest[i]] == i);
            }
        }
        assert forall|k: u64| pool_order_map(ids).contains_key(k) <==> ids.contains(k) by {
            if ids.contains(k) && k != ids.last() {
                let j = choose|j: int| 0 <= j < ids.len() && ids[j] == k;
                assert(rest[j] == k);
            }
            if rest.contains(k) {
                let j = choose|j: int| 0 <= j < rest.len() && rest[j] == k;
                assert(ids[j] == k);
            }
        }
    }
}

} // verus!
