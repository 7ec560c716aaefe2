use ibdl_extractors::error::ExtractorError;
use ibdl_extractors::extractor::SiteApi;
use ibdl_extractors::imageboards::danbooru::{DanbooruApi, DanbooruPost};
use ibdl_extractors::imageboards::e621::{E621Api, E621File, E621Post, E621SinglePostTopLevel, E621TopLevel, Tags};
use ibdl_extractors::imageboards::gelbooru::{GelbooruApi, GelbooruPost, GelbooruTopLevel};
use ibdl_extractors::imageboards::moebooru::{KonachanPost, MoebooruApi};
use ibdl_extractors::post::{Extension, ImageBoards, Rating, TagType};

fn strings(v: &[&str]) -> Vec<String> {
    v.iter().map(|s| s.to_string()).collect()
}

fn danbooru_post(id: Option<u64>, file: Option<&str>, rating: Option<&str>) -> DanbooruPost {
    DanbooruPost {
        id,
        md5: Some("abc".to_string()),
        file_url: file.map(|s| s.to_string()),
        tag_string: None,
        tag_string_general: Some("cat solo".to_string()),
        tag_string_character: None,
        tag_string_copyright: Some("series".to_string()),
        tag_string_artist: Some("painter".to_string()),
        tag_string_meta: Some("highres".to_string()),
        file_ext: Some("png".to_string()),
        rating: rating.map(|s| s.to_string()),
    }
}

#[test]
fn danbooru_maps_posts_with_files() {
    let api = DanbooruApi::new();
    let posts = api
        .map_post_list_response(vec![
            danbooru_post(Some(1), Some("https://x/1.png"), Some("s")),
            danbooru_post(Some(2), None, Some("e")),
            danbooru_post(None, Some("https://x/3.png"), None),
        ])
        .unwrap();
    assert_eq!(posts.len(), 2);
    assert_eq!(posts[0].id, 1);
    assert_eq!(posts[0].rating, Rating::Questionable);
    assert_eq!(posts[0].extension, Extension::PNG);
    assert_eq!(posts[0].website, ImageBoards::Danbooru);
    let texts: Vec<&str> = posts[0].tags.iter().map(|t| t.tag()).collect();
    assert_eq!(texts, vec!["painter", "series", "cat", "solo", "highres"]);
    assert_eq!(posts[0].tags[0].tag_type(), TagType::Author);
    assert_eq!(posts[0].tags[4].tag_type(), TagType::Meta);
    assert_eq!(posts[1].id, 0);
    assert_eq!(posts[1].rating, Rating::General);
}

#[test]
fn danbooru_single_post_needs_every_field() {
    let api = DanbooruApi::new();
    let p = api.map_single_post_response(danbooru_post(Some(5), Some("https://x/5.png"), Some("q"))).unwrap();
    assert_eq!(p.id, 5);
    assert_eq!(p.rating, Rating::Questionable);
    match api.map_single_post_response(danbooru_post(None, Some("u"), None)) {
        Err(ExtractorError::MissingField { field }) => assert_eq!(field, "id"),
        _ => panic!("expected a missing id"),
    }
    match api.map_single_post_response(danbooru_post(Some(1), None, None)) {
        Err(ExtractorError::MissingField { field }) => assert_eq!(field, "url"),
        _ => panic!("expected a missing url"),
    }
}

#[test]
fn danbooru_urls_and_tags() {
    let mut api = DanbooruApi::new();
    assert_eq!(api.single_post_url("https://d/posts", 9), "https://d/posts/9.json");
    assert_eq!(api.pool_details_url("https://d/pools", 4), "https://d/pools/4.json");
    assert_eq!(api.posts_url("https://d/posts.json", 2, 20, "a+b"), "https://d/posts.json?limit=20&page=2&tags=a+b");
    let (q, all) = api.process_tags(&strings(&["a", "b", "c"]));
    assert_eq!(q, "a+b");
    assert_eq!(all, strings(&["a", "b", "c"]));
    assert_eq!(api.full_search_page_limit(), 100);
    assert!(api.full_search_post_limit_break_condition(0));
    assert!(!api.full_search_post_limit_break_condition(1));
    assert_eq!(api.full_search_api_call_delay(), Some(500));
    assert_eq!(api.multi_get_post_api_call_delay(), 500);
    assert_eq!(api.imageboard_type(), ImageBoards::Danbooru);
}

fn e621_post(id: Option<u64>, url: Option<&str>) -> E621Post {
    E621Post {
        id,
        file: E621File {
            ext: Some("webm".to_string()),
            md5: Some("ff".to_string()),
            url: url.map(|s| s.to_string()),
        },
        tags: Tags {
            general: strings(&["fox"]),
            species: strings(&["canine"]),
            character: vec![],
            copyright: vec![],
            artist: strings(&["someone"]),
            lore: vec![],
            meta: strings(&["animated"]),
        },
        rating: "e".to_string(),
    }
}

#[test]
fn e621_maps_complete_posts() {
    let api = E621Api::new();
    let posts = api
        .map_post_list_response(E621TopLevel { posts: vec![e621_post(Some(7), Some("https://e/7.webm")), e621_post(Some(8), None)] })
        .unwrap();
    assert_eq!(posts.len(), 1);
    assert_eq!(posts[0].id, 7);
    assert_eq!(posts[0].extension, Extension::WEBM);
    assert_eq!(posts[0].rating, Rating::Explicit);
    let texts: Vec<&str> = posts[0].tags.iter().map(|t| t.tag()).collect();
    assert_eq!(texts, vec!["fox", "canine", "someone", "animated"]);
    assert!(matches!(
        api.map_single_post_response(E621SinglePostTopLevel { post: e621_post(Some(8), None) }),
        Err(ExtractorError::PostMapFailure)
    ));
}

#[test]
fn e621_query_joins_every_tag() {
    let mut api = E621Api::new();
    let (q, all) = api.process_tags(&strings(&["a", "b", "c"]));
    assert_eq!(q, "a+b+c");
    assert_eq!(all.len(), 3);
    assert_eq!(api.full_search_page_limit(), 100);
}

fn gelbooru_post(id: u64, url: Option<&str>) -> GelbooruPost {
    GelbooruPost {
        id: Some(id),
        md5: None,
        file_url: url.map(|s| s.to_string()),
        tags: Some("a b".to_string()),
        rating: None,
    }
}

#[test]
fn gelbooru_maps_posts_and_reads_extensions_from_urls() {
    let api = GelbooruApi::new();
    let posts = api
        .map_post_list_response(GelbooruTopLevel { post: vec![gelbooru_post(1, Some("https://g/x.y/1.jpeg")), gelbooru_post(2, None)] })
        .unwrap();
    assert_eq!(posts.len(), 1);
    assert_eq!(posts[0].extension, Extension::JPG);
    assert_eq!(posts[0].md5, "unknown");
    assert_eq!(posts[0].rating, Rating::Safe);
    assert_eq!(posts[0].tags.len(), 2);
}

#[test]
fn gelbooru_single_post_needs_exactly_one() {
    let api = GelbooruApi::new();
    assert!(matches!(
        api.map_single_post_response(GelbooruTopLevel { post: vec![] }),
        Err(ExtractorError::ZeroPosts)
    ));
    assert!(matches!(
        api.map_single_post_response(GelbooruTopLevel { post: vec![gelbooru_post(1, Some("u.png")), gelbooru_post(2, Some("v.png"))] }),
        Err(ExtractorError::InvalidServerResponse)
    ));
    let p = api.map_single_post_response(GelbooruTopLevel { post: vec![gelbooru_post(3, Some("w.gif"))] }).unwrap();
    assert_eq!(p.id, 3);
    assert_eq!(p.extension, Extension::GIF);
}

#[test]
fn gelbooru_urls_count_pages_from_zero() {
    let api = GelbooruApi::new();
    assert_eq!(api.posts_url("https://g/index.php?page=dapi", 1, 100, "a+b"), "https://g/index.php?page=dapi&limit=100&pid=0&tags=a+b");
    assert_eq!(api.posts_url("https://g/i?x=1", 3, 10, ""), "https://g/i?x=1&limit=10&pid=2");
    assert_eq!(api.single_post_url("https://g/i", 12), "https://g/i?page=dapi&s=post&q=index&json=1&id=12");
}

#[test]
fn moebooru_maps_posts() {
    let api = MoebooruApi::new();
    let posts = api
        .map_post_list_response(vec![
            KonachanPost { id: Some(4), md5: Some("aa".to_string()), file_url: Some("https://k/4.png".to_string()), rating: "q".to_string(), tags: "x y z".to_string() },
            KonachanPost { id: Some(5), md5: None, file_url: None, rating: "s".to_string(), tags: String::new() },
        ])
        .unwrap();
    assert_eq!(posts.len(), 1);
    assert_eq!(posts[0].rating, Rating::Questionable);
    assert_eq!(posts[0].tags.len(), 3);
    assert_eq!(api.posts_url("https://k/post.json?", 2, 30, "t"), "https://k/post.json?&page=2&limit=30&tags=t");
    assert!(matches!(api.map_single_post_response(()), Err(ExtractorError::UnsupportedOperation)));
}

#[test]
fn every_site_crawls_at_most_a_hundred_pages() {
    assert_eq!(DanbooruApi::new().full_search_page_limit(), 100);
    assert_eq!(E621Api::new().full_search_page_limit(), 100);
    assert_eq!(GelbooruApi::new().full_search_page_limit(), 100);
    assert_eq!(MoebooruApi::new().full_search_page_limit(), 100);
}
