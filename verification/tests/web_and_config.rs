use ibdl_extractors::auth::{AuthResponse, Error, ImageboardConfig};
use ibdl_extractors::caps::{ExtractorFeatures, PostFetchMethod};
use ibdl_extractors::extractor_config::{default_server, default_server_names, ServerConfig, ServerEntry};
use ibdl_extractors::post::{Extension, ImageBoards, Post, Rating, Tag, TagType};
use ibdl_extractors::text::split_whitespace;
use ibdl_extractors::web::{link_request, proxy_url, ApiPost, LinkSite, WebPost};

#[test]
fn web_post_of_a_post() {
    let p = Post {
        id: 1234,
        website: ImageBoards::E621,
        md5: "ff".to_string(),
        url: "https://static.e621/1234.png".to_string(),
        extension: Extension::PNG,
        tags: vec![Tag::new("fox", TagType::General), Tag::new("artist_x", TagType::Author)],
        rating: Rating::Safe,
    };
    let w = WebPost::from_post(&p);
    assert_eq!(w.id, 1234);
    assert_eq!(w.direct_url, "https://static.e621/1234.png");
    assert_eq!(w.post_url, "https://e621.net/posts/1234");
    assert_eq!(w.tags, vec!["fox".to_string(), "artist_x".to_string()]);
    assert_eq!(w.site, "E621");
    assert_eq!(w.rating, "Safe");
}

#[test]
fn link_request_checks_tags_then_site() {
    match link_request("danbooru", "   ") {
        Err(m) => assert_eq!(m, "No tags provided."),
        Ok(_) => panic!("expected an error"),
    }
    match link_request("nowhere", "cat") {
        Err(m) => assert_eq!(m, "Invalid site name: nowhere"),
        Ok(_) => panic!("expected an error"),
    }
    match link_request("konachan", "cat") {
        Err(m) => assert_eq!(m, "Unsupported site: konachan"),
        Ok(_) => panic!("expected an error"),
    }
    let r = link_request("e621", " fox\tsolo \n").unwrap();
    assert_eq!(r.site, LinkSite::E621);
    assert_eq!(r.tags, vec!["fox".to_string(), "solo".to_string()]);
    assert_eq!(r.server.name, "e621");
    let r = link_request("danbooru", "cat").unwrap();
    assert_eq!(r.site, LinkSite::Danbooru);
}

#[test]
fn proxy_url_encodes_the_api_url() {
    assert_eq!(
        proxy_url("danbooru", "cat ears", 5),
        "https://corsproxy.io/?https%3A%2F%2Fdanbooru.donmai.us%2Fposts.json%3Flimit%3D5%26tags%3Dcat%20ears"
    );
    assert_eq!(
        proxy_url("other", "a~b_c-d.e", 10),
        "https://corsproxy.io/?https%3A%2F%2Fe621.net%2Fposts.json%3Flimit%3D10%26tags%3Da~b_c-d.e"
    );
    assert_eq!(
        proxy_url("e621", "é", 1),
        "https://corsproxy.io/?https%3A%2F%2Fe621.net%2Fposts.json%3Flimit%3D1%26tags%3D%C3%A9"
    );
}

#[test]
fn web_post_of_an_api_post() {
    let p = ApiPost {
        id: 77,
        file_url: Some("https://f/77.jpg".to_string()),
        source: None,
        large_file_url: None,
        tag_string: "a  b\tc".to_string(),
        rating: "g".to_string(),
    };
    let w = WebPost::from_api_post(&p, "danbooru");
    assert_eq!(w.direct_url, "https://f/77.jpg");
    assert_eq!(w.post_url, "https://danbooru.donmai.us/posts/77");
    assert_eq!(w.tags, vec!["a".to_string(), "b".to_string(), "c".to_string()]);
    assert_eq!(w.site, "danbooru");
    assert_eq!(w.rating, "g");
    let q = ApiPost {
        id: 1,
        file_url: Some("small".to_string()),
        source: None,
        large_file_url: Some("large".to_string()),
        tag_string: String::new(),
        rating: "e".to_string(),
    };
    let w = WebPost::from_api_post(&q, "e621");
    assert_eq!(w.direct_url, "large");
    assert_eq!(w.post_url, "https://e621.net/posts/1");
    assert!(w.tags.is_empty());
    let r = ApiPost { id: 2, file_url: None, source: None, large_file_url: None, tag_string: String::new(), rating: String::new() };
    assert_eq!(WebPost::from_api_post(&r, "e621").direct_url, "");
}

#[test]
fn split_whitespace_drops_empty_words() {
    assert_eq!(split_whitespace("  a b\u{3000}c  "), vec!["a".to_string(), "b".to_string(), "c".to_string()]);
    assert!(split_whitespace("").is_empty());
}

#[test]
fn default_servers_are_known_by_name() {
    let names = default_server_names();
    assert_eq!(names.len(), 6);
    for n in &names {
        assert_eq!(&default_server(n).unwrap().name, n);
    }
    assert!(default_server("Danbooru").is_none());
    let d = ServerConfig::default();
    assert_eq!(d.name, "danbooru");
    assert_eq!(d.max_post_limit, 200);
    assert_eq!(d.to_string(), "danbooru");
}

#[test]
fn server_entry_becomes_a_configuration() {
    let c = ServerConfig::from_entry(
        "mybooru".to_string(),
        ServerEntry {
            pretty_name: "My Booru".to_string(),
            server: "moebooru".to_string(),
            base_url: "https://my.booru".to_string(),
            post_url: None,
            post_list_url: Some("https://my.booru/post.json?".to_string()),
            pool_idx_url: None,
            max_post_limit: 50,
            auth_url: None,
            image_url: None,
        },
    );
    assert_eq!(c.name, "mybooru");
    assert_eq!(c.server, ImageBoards::Moebooru);
    assert_eq!(c.client_user_agent, "Rust Imageboard Downloader/0.1.0");
    assert_eq!(c.extractor_features().bits(), 0b0000_0011);
}

#[test]
fn auth_urls_depend_on_the_imageboard() {
    let d = ImageboardConfig::new(default_server("danbooru").unwrap(), "u".to_string(), "k".to_string());
    assert_eq!(d.auth_request_url().unwrap(), "https://danbooru.donmai.us/profile.json");
    let g = ImageboardConfig::new(default_server("gelbooru").unwrap(), "u".to_string(), "k".to_string());
    assert_eq!(g.auth_request_url(), Err(Error::AuthUnsupported));
    assert_eq!(g.server_pretty_name(), "Gelbooru");
}

#[test]
fn refused_login_changes_nothing() {
    let mut c = ImageboardConfig::new(ServerConfig::default(), "u".to_string(), "k".to_string());
    let r = c.apply_auth_response(AuthResponse { success: Some(false), id: None, name: None, blacklisted_tags: None });
    assert_eq!(r, Err(Error::InvalidLogin));
    assert!(c.blacklisted_tags().is_empty());
    assert_eq!(c.username(), "u");
    assert_eq!(c.api_key(), "k");
}

#[test]
fn features_are_bit_sets() {
    let all = ExtractorFeatures::from_bits_truncate(0xff);
    assert_eq!(all.bits(), 0b0001_1111);
    assert!(all.contains(ExtractorFeatures::pool_download()));
    let basic = ExtractorFeatures::from_bits_truncate(0b0000_0011);
    assert!(basic.contains(ExtractorFeatures::async_fetch()));
    assert!(basic.contains(ExtractorFeatures::tag_search()));
    assert!(!basic.contains(ExtractorFeatures::auth()));
    assert!(!basic.contains(ExtractorFeatures::single_post_fetch()));
}

#[test]
fn fetch_methods_list_their_ids() {
    assert_eq!(PostFetchMethod::Single(4).ids(), vec![4]);
    assert_eq!(PostFetchMethod::Multiple(vec![3, 1]).ids(), vec![3, 1]);
}

#[test]
fn names_ratings_and_extensions() {
    assert_eq!(ImageBoards::from_name("gelbooru_v0.2"), Some(ImageBoards::GelbooruV0_2));
    assert_eq!(ImageBoards::from_name("Danbooru"), None);
    assert_eq!(ImageBoards::Danbooru.to_string(), "Danbooru");
    assert_eq!(Rating::from_rating_str("questionable"), Rating::Questionable);
    assert_eq!(Rating::from_rating_str("x"), Rating::Unknown);
    assert_eq!(Extension::guess_format("jpeg"), Extension::JPG);
    assert_eq!(Extension::guess_format("zip"), Extension::Ugoira);
    assert!(Extension::Ugoira.is_video());
    assert!(!Extension::PNG.is_video());
}
