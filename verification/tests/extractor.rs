use ibdl_extractors::auth::{AuthResponse, AuthState, ImageboardConfig};
use ibdl_extractors::blacklist::{BlacklistEntry, GlobalBlacklist};
use ibdl_extractors::error::ExtractorError;
use ibdl_extractors::extractor::common::convert_tags_to_string;
use ibdl_extractors::extractor::search::SearchStep;
use ibdl_extractors::extractor::{FetchKind, PostExtractor};
use ibdl_extractors::extractor_config::{default_server, ServerConfig};
use ibdl_extractors::imageboards::danbooru::DanbooruApi;
use ibdl_extractors::imageboards::e621::E621Api;
use ibdl_extractors::imageboards::moebooru::MoebooruApi;
use ibdl_extractors::post::{Extension, ImageBoards, Post, Rating, Tag, TagType};

fn post(id: u64, tags: &[&str]) -> Post {
    Post {
        id,
        website: ImageBoards::Danbooru,
        md5: format!("m{id}"),
        url: format!("https://cdn.example/{id}.jpg"),
        extension: Extension::JPG,
        tags: tags.iter().map(|t| Tag::new(t, TagType::General)).collect(),
        rating: Rating::General,
    }
}

fn strings(v: &[&str]) -> Vec<String> {
    v.iter().map(|s| s.to_string()).collect()
}

fn no_blacklist() -> GlobalBlacklist {
    GlobalBlacklist::from_entries(vec![])
}

fn danbooru(tags: &[&str], disable_blacklist: bool) -> PostExtractor<DanbooruApi> {
    PostExtractor::new(
        &strings(tags),
        &no_blacklist(),
        &[],
        disable_blacklist,
        true,
        DanbooruApi::new(),
        default_server("danbooru").unwrap(),
    )
}

fn queue_ids(step: SearchStep) -> Vec<u64> {
    match step {
        SearchStep::Done(Ok(q)) => q.posts.iter().map(|p| p.id).collect(),
        _ => panic!("search did not end with posts"),
    }
}

fn fetch_page(step: &SearchStep) -> (u16, Option<u16>, Option<u64>) {
    match step {
        SearchStep::Fetch { page, limit, delay_ms } => (*page, *limit, *delay_ms),
        _ => panic!("search did not ask for a page"),
    }
}

#[test]
fn new_extractor_takes_query_tags_from_site() {
    let e = danbooru(&["cat_ears", "solo", "1girl"], true);
    let req = e.post_list_request(3, None).unwrap();
    assert_eq!(
        req.url,
        "https://danbooru.donmai.us/posts.json?limit=200&page=3&tags=cat_ears+solo"
    );
    assert!(req.credentials.is_none());
    assert_eq!(e.total_removed(), 0);
    assert_eq!(e.imageboard(), ImageBoards::Danbooru);
    assert_eq!(e.config().name, "danbooru");
}

#[test]
fn post_list_request_caps_the_limit() {
    let e = danbooru(&["cat"], true);
    assert_eq!(
        e.post_list_request(1, Some(5)).unwrap().url,
        "https://danbooru.donmai.us/posts.json?limit=5&page=1&tags=cat"
    );
    assert_eq!(
        e.post_list_request(1, Some(500)).unwrap().url,
        "https://danbooru.donmai.us/posts.json?limit=200&page=1&tags=cat"
    );
}

#[test]
fn post_list_request_without_tags_has_no_tag_parameter() {
    let e = danbooru(&[], true);
    assert_eq!(
        e.post_list_request(2, None).unwrap().url,
        "https://danbooru.donmai.us/posts.json?limit=200&page=2"
    );
}

#[test]
fn requests_need_their_urls() {
    let mut cfg = default_server("danbooru").unwrap();
    cfg.post_list_url = None;
    cfg.post_url = None;
    cfg.pool_idx_url = None;
    let e = PostExtractor::new(&strings(&["cat"]), &no_blacklist(), &[], true, true, DanbooruApi::new(), cfg);
    assert!(matches!(e.post_list_request(1, None), Err(ExtractorError::UnsupportedOperation)));
    assert!(matches!(e.post_request(1), Err(ExtractorError::UnsupportedOperation)));
    assert!(matches!(e.pool_request(1), Err(ExtractorError::UnsupportedOperation)));
}

#[test]
fn single_post_and_pool_requests() {
    let e = danbooru(&["cat"], true);
    assert_eq!(e.post_request(123).unwrap().url, "https://danbooru.donmai.us/posts//123.json");
    assert_eq!(e.pool_request(77).unwrap().url, "https://danbooru.donmai.us/pools/77.json");
}

#[test]
fn auth_adds_credentials_to_requests() {
    let mut e = danbooru(&["cat"], true);
    let cfg = ImageboardConfig::new(ServerConfig::default(), "alice".to_string(), "k3y".to_string());
    assert!(e.auth(cfg).is_ok());
    let req = e.post_list_request(1, None).unwrap();
    assert_eq!(req.credentials, Some(("alice".to_string(), "k3y".to_string())));
    let req = e.post_request(5).unwrap();
    assert_eq!(req.credentials, Some(("alice".to_string(), "k3y".to_string())));
    assert!(AuthState::Authenticated.is_auth());
    assert!(!AuthState::NotAuthenticated.is_auth());
}

#[test]
fn search_result_sorts_newest_first() {
    let e = danbooru(&["cat"], true);
    let q = e.search_result(Ok(vec![post(5, &[]), post(9, &[]), post(1, &[])])).unwrap();
    assert_eq!(q.posts.iter().map(|p| p.id).collect::<Vec<_>>(), vec![9, 5, 1]);
    assert_eq!(q.tags, strings(&["cat"]));
    assert_eq!(q.imageboard, ImageBoards::Danbooru);
}

#[test]
fn search_result_of_no_posts_is_zero_posts() {
    let e = danbooru(&["cat"], true);
    assert!(matches!(e.search_result(Ok(vec![])), Err(ExtractorError::ZeroPosts)));
    assert!(matches!(e.search_result(Err(ExtractorError::ConnectionError)), Err(ExtractorError::ConnectionError)));
}

#[test]
fn full_search_collects_pages_until_empty() {
    let mut e = danbooru(&["cat"], true);
    let (mut s, step) = e.full_search_start(None, None);
    assert_eq!(fetch_page(&step), (1, None, None));
    let step = e.full_search_step(&mut s, Ok(vec![post(3, &[]), post(7, &[]), post(2, &[])]));
    assert_eq!(fetch_page(&step), (2, None, Some(500)));
    let step = e.full_search_step(&mut s, Ok(vec![post(9, &[]), post(1, &[])]));
    assert_eq!(fetch_page(&step), (3, None, Some(500)));
    let step = e.full_search_step(&mut s, Ok(vec![]));
    assert_eq!(queue_ids(step), vec![9, 7, 3, 2, 1]);
}

#[test]
fn full_search_stops_once_the_limit_is_reached() {
    let mut e = danbooru(&["cat"], true);
    let (mut s, step) = e.full_search_start(None, Some(4));
    assert_eq!(fetch_page(&step), (1, Some(4), None));
    let step = e.full_search_step(&mut s, Ok(vec![post(3, &[]), post(7, &[]), post(2, &[])]));
    assert_eq!(fetch_page(&step), (2, Some(4), Some(500)));
    let step = e.full_search_step(&mut s, Ok(vec![post(9, &[]), post(1, &[])]));
    assert_eq!(queue_ids(step), vec![9, 7, 3, 2, 1]);
}

#[test]
fn full_search_from_page_zero_fails() {
    let e = danbooru(&["cat"], true);
    let (_, step) = e.full_search_start(Some(0), None);
    assert!(matches!(step, SearchStep::Done(Err(ExtractorError::ZeroPage))));
}

#[test]
fn full_search_counts_pages_from_the_start_page() {
    let mut e = danbooru(&["cat"], true);
    let (mut s, step) = e.full_search_start(Some(10), None);
    assert_eq!(fetch_page(&step), (10, None, None));
    let step = e.full_search_step(&mut s, Ok(vec![post(1, &[])]));
    assert_eq!(fetch_page(&step), (11, None, Some(500)));
}

#[test]
fn full_search_tries_a_second_page_after_an_empty_first() {
    let mut e = danbooru(&["cat"], true);
    let (mut s, _) = e.full_search_start(None, None);
    let step = e.full_search_step(&mut s, Ok(vec![]));
    assert_eq!(fetch_page(&step), (2, None, Some(500)));
    let step = e.full_search_step(&mut s, Ok(vec![]));
    assert!(matches!(step, SearchStep::Done(Err(ExtractorError::ZeroPosts))));
}

#[test]
fn full_search_passes_fetch_errors_on() {
    let mut e = danbooru(&["cat"], true);
    let (mut s, _) = e.full_search_start(None, None);
    let step = e.full_search_step(&mut s, Err(ExtractorError::JsonSerializeFail));
    assert!(matches!(step, SearchStep::Done(Err(ExtractorError::JsonSerializeFail))));
}

#[test]
fn full_search_stops_at_the_page_limit() {
    let mut e = danbooru(&["cat"], true);
    let (mut s, mut step) = e.full_search_start(None, None);
    let mut pages = 0u64;
    loop {
        match step {
            SearchStep::Fetch { page, .. } => {
                pages += 1;
                assert!(page <= 100);
                step = e.full_search_step(&mut s, Ok(vec![post(page as u64, &[])]));
            }
            SearchStep::Done(r) => {
                assert_eq!(r.unwrap().posts.len(), 100);
                break;
            }
            SearchStep::Overflow => panic!("page numbers fit"),
        }
    }
    assert_eq!(pages, 100);
}

#[test]
fn full_search_filters_excluded_tags_and_counts_them() {
    let mut e = danbooru(&["cat"], false);
    e.exclude_tags(&strings(&["gore"]));
    let (mut s, _) = e.full_search_start(None, None);
    let step = e.full_search_step(&mut s, Ok(vec![post(1, &["gore"]), post(2, &["cat"]), post(3, &["gore"])]));
    assert_eq!(fetch_page(&step).0, 2);
    assert_eq!(e.total_removed(), 2);
    let step = e.full_search_step(&mut s, Ok(vec![]));
    assert_eq!(queue_ids(step), vec![2]);
}

#[test]
fn full_search_uses_the_profile_blacklist_when_authenticated() {
    let mut e = danbooru(&["cat"], false);
    let mut cfg = ImageboardConfig::new(ServerConfig::default(), "bob".to_string(), "key".to_string());
    let answer = AuthResponse {
        success: None,
        id: Some(42),
        name: Some("bob".to_string()),
        blacklisted_tags: Some("furry\n// a comment\nscat".to_string()),
    };
    assert!(cfg.apply_auth_response(answer).is_ok());
    assert_eq!(cfg.blacklisted_tags(), &strings(&["furry", "scat"]));
    e.auth(cfg).unwrap();
    let (mut s, _) = e.full_search_start(None, Some(10));
    let _ = e.full_search_step(&mut s, Ok(vec![post(1, &["furry"]), post(2, &["cat"]), post(3, &["scat"])]));
    assert_eq!(e.total_removed(), 2);
}

#[test]
fn full_search_of_filtered_pages_is_zero_posts() {
    let mut e = danbooru(&["cat"], false);
    e.exclude_tags(&strings(&["gore"]));
    let (mut s, _) = e.full_search_start(None, None);
    let _ = e.full_search_step(&mut s, Ok(vec![post(1, &["gore"])]));
    let step = e.full_search_step(&mut s, Ok(vec![]));
    assert!(matches!(step, SearchStep::Done(Err(ExtractorError::ZeroPosts))));
    assert_eq!(e.total_removed(), 1);
}

#[test]
fn builders_keep_their_settings() {
    let mut e = danbooru(&["cat"], true);
    e.force_extension(Extension::PNG).exclude_tags(&strings(&["x"]));
    e.setup_pool_download(Some(12), true);
    let cfg = e.pool_config().unwrap();
    assert_eq!(cfg.pool_id, 12);
    assert!(cfg.last_first);
    e.setup_pool_download(None, false);
    assert!(e.pool_config().is_none());
}

#[test]
fn extractor_features_come_from_the_site() {
    assert_eq!(PostExtractor::<DanbooruApi>::features().bits(), 0b0001_1111);
    assert_eq!(PostExtractor::<MoebooruApi>::features().bits(), 0b0000_0011);
}

#[test]
fn post_fetch_delay_pauses_between_posts() {
    let e = danbooru(&["cat"], true);
    assert_eq!(e.post_fetch_delay(0, 3), Some(500));
    assert_eq!(e.post_fetch_delay(1, 3), Some(500));
    assert_eq!(e.post_fetch_delay(2, 3), None);
    assert_eq!(e.post_fetch_delay(0, 0), None);
}

#[test]
fn convert_tags_to_string_gives_nothing() {
    let (v, s) = convert_tags_to_string(&strings(&["a", "b"]));
    assert!(v.is_empty());
    assert_eq!(s, "");
}

#[test]
fn global_blacklist_sections_reach_the_search() {
    let bl = GlobalBlacklist::from_entries(vec![BlacklistEntry {
        name: "danbooru".to_string(),
        tags: vec!["comic".to_string()],
    }]);
    let mut e = PostExtractor::new(
        &strings(&["cat"]),
        &bl,
        &[],
        false,
        true,
        DanbooruApi::new(),
        default_server("danbooru").unwrap(),
    );
    let (mut s, _) = e.full_search_start(None, None);
    let _ = e.full_search_step(&mut s, Ok(vec![post(1, &["comic"]), post(2, &[])]));
    let step = e.full_search_step(&mut s, Ok(vec![]));
    assert_eq!(queue_ids(step), vec![2]);
}

fn e621(tags: &[&str]) -> PostExtractor<E621Api> {
    PostExtractor::new(
        &strings(tags),
        &no_blacklist(),
        &[],
        true,
        true,
        E621Api::new(),
        default_server("e621").unwrap(),
    )
}

#[test]
fn full_search_keeps_the_posts_of_a_short_last_page() {
    let mut e = e621(&["fox"]);
    let (mut s, _) = e.full_search_start(None, None);
    // a short first page does not end the search
    let step = e.full_search_step(&mut s, Ok(vec![post(5, &[]), post(8, &[])]));
    assert_eq!(fetch_page(&step).0, 2);
    // a short later page is the last, and its posts are kept
    let step = e.full_search_step(&mut s, Ok(vec![post(3, &[])]));
    assert_eq!(queue_ids(step), vec![8, 5, 3]);
}

#[test]
fn full_search_from_the_last_page_number_overflows() {
    let e = danbooru(&["cat"], true);
    let (_, step) = e.full_search_start(Some(u16::MAX), None);
    assert!(matches!(step, SearchStep::Overflow));
    let (_, step) = e.full_search_start(Some(u16::MAX - 1), None);
    assert_eq!(fetch_page(&step).0, u16::MAX - 1);
}

#[test]
fn full_search_overflows_when_the_next_page_number_does_not_fit() {
    let mut e = danbooru(&["cat"], true);
    let (mut s, step) = e.full_search_start(Some(u16::MAX - 1), None);
    assert_eq!(fetch_page(&step).0, u16::MAX - 1);
    let step = e.full_search_step(&mut s, Ok(vec![post(1, &[])]));
    assert!(matches!(step, SearchStep::Overflow));
    // a page that ends the search needs no next page number
    let (mut s, _) = e.full_search_start(Some(u16::MAX - 1), Some(1));
    let step = e.full_search_step(&mut s, Ok(vec![post(1, &[])]));
    assert_eq!(queue_ids(step), vec![1]);
}

#[test]
fn fetch_kind_follows_the_pool_setting() {
    let mut e = danbooru(&["cat"], true);
    assert!(matches!(e.fetch_kind(), FetchKind::Tags));
    e.setup_pool_download(Some(3), false);
    match e.fetch_kind() {
        FetchKind::Pool(cfg) => assert_eq!(cfg.pool_id, 3),
        FetchKind::Tags => panic!("expected a pool download"),
    }
}
