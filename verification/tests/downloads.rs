use ibdl_extractors::blacklist::GlobalBlacklist;
use ibdl_extractors::error::ExtractorError;
use ibdl_extractors::extractor::pool::{limit_pool_index, pool_fetch_plan, PoolNext};
use ibdl_extractors::extractor::tag_fetch::TagNext;
use ibdl_extractors::extractor::{PoolDownloadConfig, PostExtractor};
use ibdl_extractors::extractor_config::default_server;
use ibdl_extractors::imageboards::danbooru::{DanbooruApi, DanbooruPoolList};
use ibdl_extractors::imageboards::gelbooru::GelbooruApi;
use ibdl_extractors::post::{Extension, ImageBoards, Post, Rating, Tag, TagType};

fn post(id: u64, tags: &[&str]) -> Post {
    Post {
        id,
        website: ImageBoards::Danbooru,
        md5: format!("m{id}"),
        url: format!("https://cdn.example/{id}.png"),
        extension: Extension::PNG,
        tags: tags.iter().map(|t| Tag::new(t, TagType::General)).collect(),
        rating: Rating::General,
    }
}

fn strings(v: &[&str]) -> Vec<String> {
    v.iter().map(|s| s.to_string()).collect()
}

fn danbooru(tags: &[&str], disable_blacklist: bool) -> PostExtractor<DanbooruApi> {
    PostExtractor::new(
        &strings(tags),
        &GlobalBlacklist::from_entries(vec![]),
        &[],
        disable_blacklist,
        true,
        DanbooruApi::new(),
        default_server("danbooru").unwrap(),
    )
}

fn ids(posts: &[Post]) -> Vec<u64> {
    posts.iter().map(|p| p.id).collect()
}

#[test]
fn tag_fetch_sends_posts_with_every_tag_up_to_the_limit() {
    let mut e = danbooru(&["cat", "solo"], true);
    let (mut f, next) = e.tag_fetch_start(None, Some(1));
    assert!(matches!(next, TagNext::Fetch { page: 1, limit: Some(1), delay_ms: None }));
    let step = e.tag_fetch_step(
        &mut f,
        Ok(vec![post(1, &["cat", "solo"]), post(2, &["cat"]), post(3, &["solo", "x", "cat"])]),
    );
    assert_eq!(ids(&step.send), vec![1]);
    assert!(matches!(step.next, TagNext::Done(Ok(0))));
}

#[test]
fn tag_fetch_goes_on_until_an_empty_page() {
    let mut e = danbooru(&["cat", "solo"], true);
    let (mut f, _) = e.tag_fetch_start(None, None);
    let step = e.tag_fetch_step(
        &mut f,
        Ok(vec![post(1, &["cat", "solo"]), post(2, &["cat"]), post(3, &["solo", "x", "cat"])]),
    );
    assert_eq!(ids(&step.send), vec![1, 3]);
    assert!(matches!(step.next, TagNext::Fetch { page: 2, limit: None, delay_ms: Some(500) }));
    let step = e.tag_fetch_step(&mut f, Ok(vec![]));
    assert!(step.send.is_empty());
    assert!(matches!(step.next, TagNext::Done(Ok(0))));
}

#[test]
fn tag_fetch_limit_spans_pages() {
    let mut e = danbooru(&["cat"], true);
    let (mut f, _) = e.tag_fetch_start(Some(4), Some(3));
    let step = e.tag_fetch_step(&mut f, Ok(vec![post(1, &["cat"]), post(2, &["cat"])]));
    assert_eq!(ids(&step.send), vec![1, 2]);
    assert!(matches!(step.next, TagNext::Fetch { page: 5, limit: Some(3), delay_ms: Some(500) }));
    let step = e.tag_fetch_step(&mut f, Ok(vec![post(3, &["cat"]), post(4, &["cat"])]));
    assert_eq!(ids(&step.send), vec![3]);
    assert!(matches!(step.next, TagNext::Done(Ok(0))));
}

#[test]
fn tag_fetch_of_an_empty_first_page_is_zero_posts() {
    let mut e = danbooru(&["cat"], true);
    let (mut f, _) = e.tag_fetch_start(None, None);
    let step = e.tag_fetch_step(&mut f, Ok(vec![]));
    assert!(matches!(step.next, TagNext::Done(Err(ExtractorError::ZeroPosts))));
}

#[test]
fn tag_fetch_of_only_filtered_posts_is_zero_posts() {
    let mut e = danbooru(&["cat"], false);
    e.exclude_tags(&strings(&["gore"]));
    let (mut f, _) = e.tag_fetch_start(None, None);
    let step = e.tag_fetch_step(&mut f, Ok(vec![post(1, &["cat", "gore"]), post(2, &["dog"])]));
    assert!(step.send.is_empty());
    assert_eq!(e.total_removed(), 1);
    let step = e.tag_fetch_step(&mut f, Ok(vec![]));
    assert!(matches!(step.next, TagNext::Done(Err(ExtractorError::ZeroPosts))));
}

#[test]
fn tag_fetch_reports_the_removed_count() {
    let mut e = danbooru(&["cat"], false);
    e.exclude_tags(&strings(&["gore"]));
    let (mut f, _) = e.tag_fetch_start(None, Some(5));
    let step = e.tag_fetch_step(&mut f, Ok(vec![post(1, &["cat", "gore"]), post(2, &["cat"])]));
    assert_eq!(ids(&step.send), vec![2]);
    let step = e.tag_fetch_step(&mut f, Ok(vec![]));
    assert!(matches!(step.next, TagNext::Done(Ok(1))));
}

#[test]
fn tag_fetch_from_page_zero_fails() {
    let e = danbooru(&["cat"], true);
    let (_, next) = e.tag_fetch_start(Some(0), None);
    assert!(matches!(next, TagNext::Done(Err(ExtractorError::ZeroPage))));
}

#[test]
fn tag_fetch_passes_fetch_errors_on() {
    let mut e = danbooru(&["cat"], true);
    let (mut f, _) = e.tag_fetch_start(None, None);
    let step = e.tag_fetch_step(&mut f, Err(ExtractorError::ConnectionError));
    assert!(matches!(step.next, TagNext::Done(Err(ExtractorError::ConnectionError))));
}

#[test]
fn pool_index_maps_ids_to_their_place() {
    let e = danbooru(&["cat"], true);
    let m = e.pool_index(DanbooruPoolList { post_ids: vec![30, 10, 20] }, None).unwrap();
    assert_eq!(m.len(), 3);
    assert_eq!(m[&30], 0);
    assert_eq!(m[&10], 1);
    assert_eq!(m[&20], 2);
}

#[test]
fn pool_index_keeps_the_first_places_under_a_limit() {
    let e = danbooru(&["cat"], true);
    let m = e.pool_index(DanbooruPoolList { post_ids: vec![30, 10, 20, 40] }, Some(2)).unwrap();
    assert_eq!(m.len(), 2);
    assert_eq!(m[&30], 0);
    assert_eq!(m[&10], 1);
    let all = e.pool_index(DanbooruPoolList { post_ids: vec![30, 10] }, Some(5)).unwrap();
    assert_eq!(all.len(), 2);
    let again = limit_pool_index(all, Some(1));
    assert_eq!(again.len(), 1);
    assert_eq!(again[&30], 0);
}

#[test]
fn pool_index_of_a_site_without_pools_fails() {
    let e = PostExtractor::new(
        &strings(&["cat"]),
        &GlobalBlacklist::from_entries(vec![]),
        &[],
        true,
        true,
        GelbooruApi::new(),
        default_server("gelbooru").unwrap(),
    );
    assert!(matches!(e.pool_index((), None), Err(ExtractorError::UnsupportedOperation)));
}

#[test]
fn pool_plan_follows_pool_order() {
    let e = danbooru(&["cat"], true);
    let m = e.pool_index(DanbooruPoolList { post_ids: vec![30, 10, 20] }, None).unwrap();
    assert_eq!(pool_fetch_plan(&m, false, None), vec![30, 10, 20]);
    assert_eq!(pool_fetch_plan(&m, true, None), vec![20, 10, 30]);
    assert_eq!(pool_fetch_plan(&m, false, Some(2)), vec![30, 10]);
    assert_eq!(pool_fetch_plan(&m, true, Some(1)), vec![20]);
    assert_eq!(pool_fetch_plan(&m, true, Some(0)), Vec::<u64>::new());
}

#[test]
fn pool_download_sends_posts_that_pass_and_skips_failures() {
    let mut e = danbooru(&["cat"], false);
    e.exclude_tags(&strings(&["gore"]));
    let m = e.pool_index(DanbooruPoolList { post_ids: vec![30, 10, 20] }, None).unwrap();
    let cfg = PoolDownloadConfig { pool_id: 1, last_first: false };
    let (mut f, next) = e.pool_fetch_start(cfg, &m, None);
    assert!(matches!(next, PoolNext::FetchPost { post_id: 30 }));
    let step = e.pool_fetch_step(&mut f, Ok(post(30, &["cat"])));
    assert_eq!(step.send.map(|p| p.id), Some(30));
    assert!(matches!(step.next, PoolNext::FetchPost { post_id: 10 }));
    let step = e.pool_fetch_step(&mut f, Err(ExtractorError::ConnectionError));
    assert!(step.send.is_none());
    assert!(matches!(step.next, PoolNext::FetchPost { post_id: 20 }));
    let step = e.pool_fetch_step(&mut f, Ok(post(20, &["gore"])));
    assert!(step.send.is_none());
    assert!(matches!(step.next, PoolNext::Done(Ok(1))));
}

#[test]
fn pool_download_of_an_empty_pool_ends_at_once() {
    let e = danbooru(&["cat"], true);
    let m = e.pool_index(DanbooruPoolList { post_ids: vec![] }, None).unwrap();
    let cfg = PoolDownloadConfig { pool_id: 1, last_first: true };
    let (_, next) = e.pool_fetch_start(cfg, &m, Some(3));
    assert!(matches!(next, PoolNext::Done(Ok(0))));
}

#[test]
fn pool_download_rejects_ids_beyond_32_bits() {
    let e = danbooru(&["cat"], true);
    let m = e.pool_index(DanbooruPoolList { post_ids: vec![5_000_000_000, 1] }, None).unwrap();
    let cfg = PoolDownloadConfig { pool_id: 1, last_first: false };
    let (_, next) = e.pool_fetch_start(cfg, &m, None);
    assert!(matches!(next, PoolNext::Done(Err(ExtractorError::IntConversionFail))));
}

#[test]
fn pool_download_newest_first() {
    let mut e = danbooru(&["cat"], true);
    let m = e.pool_index(DanbooruPoolList { post_ids: vec![30, 10, 20] }, None).unwrap();
    let cfg = PoolDownloadConfig { pool_id: 1, last_first: true };
    let (mut f, next) = e.pool_fetch_start(cfg, &m, Some(2));
    assert!(matches!(next, PoolNext::FetchPost { post_id: 20 }));
    let step = e.pool_fetch_step(&mut f, Ok(post(20, &[])));
    assert!(matches!(step.next, PoolNext::FetchPost { post_id: 10 }));
    let step = e.pool_fetch_step(&mut f, Ok(post(10, &[])));
    assert!(matches!(step.next, PoolNext::Done(Ok(0))));
}

#[test]
fn parse_pool_ids_keeps_pool_order() {
    let e = danbooru(&["cat"], true);
    let v = e.parse_pool_ids(DanbooruPoolList { post_ids: vec![3, 1, 2] }).unwrap();
    assert_eq!(v, vec![3, 1, 2]);
    let _ = Rating::Safe;
}

#[test]
fn tag_fetch_without_a_limit_counts_nothing_and_goes_on() {
    let mut e = danbooru(&["cat"], true);
    let (mut f, _) = e.tag_fetch_start(None, None);
    let many: Vec<Post> = (0..70_000u64).map(|i| post(i, &["cat"])).collect();
    let step = e.tag_fetch_step(&mut f, Ok(many));
    assert_eq!(step.send.len(), 70_000);
    assert!(matches!(step.next, TagNext::Fetch { page: 2, limit: None, delay_ms: Some(500) }));
}

#[test]
fn tag_fetch_from_the_last_page_number_overflows() {
    let e = danbooru(&["cat"], true);
    let (_, next) = e.tag_fetch_start(Some(u16::MAX), None);
    assert!(matches!(next, TagNext::Overflow));
}
