use ibdl_extractors::blacklist::{BlacklistEntry, BlacklistFilter, GlobalBlacklist};
use ibdl_extractors::post::{Extension, ImageBoards, Post, Rating, Tag, TagType};

fn post(id: u64, ext: Extension, rating: Rating, tags: &[&str]) -> Post {
    Post {
        id,
        website: ImageBoards::Danbooru,
        md5: format!("md5_{id}"),
        url: format!("https://example.com/{id}"),
        extension: ext,
        tags: tags.iter().map(|t| Tag::new(t, TagType::General)).collect(),
        rating,
    }
}

fn config() -> GlobalBlacklist {
    GlobalBlacklist::from_entries(vec![
        BlacklistEntry { name: "global".to_string(), tags: vec!["gore".to_string()] },
        BlacklistEntry { name: "danbooru".to_string(), tags: vec!["comic".to_string()] },
        BlacklistEntry { name: "e621".to_string(), tags: vec!["feral".to_string()] },
    ])
}

fn ids(posts: &[Post]) -> Vec<u64> {
    posts.iter().map(|p| p.id).collect()
}

fn sample() -> Vec<Post> {
    vec![
        post(1, Extension::JPG, Rating::General, &["cat"]),
        post(2, Extension::PNG, Rating::Explicit, &["gore"]),
        post(3, Extension::JPG, Rating::Safe, &["comic", "cat"]),
        post(4, Extension::GIF, Rating::General, &["feral"]),
        post(5, Extension::PNG, Rating::Questionable, &["dog"]),
    ]
}

#[test]
fn filter_removes_global_and_site_tags() {
    let f = BlacklistFilter::new(&config(), ImageBoards::Danbooru, &[], &[], false, false, None);
    let (removed, kept) = f.filter(sample());
    assert_eq!(ids(&kept), vec![1, 4, 5]);
    assert_eq!(removed, 2);
}

#[test]
fn filter_site_section_follows_imageboard() {
    let f = BlacklistFilter::new(&config(), ImageBoards::E621, &[], &[], false, false, None);
    let (removed, kept) = f.filter(sample());
    assert_eq!(ids(&kept), vec![1, 3, 5]);
    assert_eq!(removed, 2);
}

#[test]
fn filter_additional_tags_join_the_blacklist() {
    let extra = vec!["dog".to_string()];
    let f = BlacklistFilter::new(&config(), ImageBoards::Danbooru, &extra, &[], false, false, None);
    let (removed, kept) = f.filter(sample());
    assert_eq!(ids(&kept), vec![1, 4]);
    assert_eq!(removed, 3);
}

#[test]
fn filter_disabled_tag_blacklisting_keeps_tagged_posts() {
    let extra = vec!["dog".to_string()];
    let f = BlacklistFilter::new(&config(), ImageBoards::Danbooru, &extra, &[], true, false, None);
    let (removed, kept) = f.filter(sample());
    assert_eq!(ids(&kept), vec![1, 2, 3, 4, 5]);
    assert_eq!(removed, 0);
}

#[test]
fn filter_keeps_selected_ratings() {
    let f = BlacklistFilter::new(
        &config(),
        ImageBoards::Danbooru,
        &[],
        &[Rating::Safe, Rating::General],
        true,
        false,
        None,
    );
    let (removed, kept) = f.filter(sample());
    assert_eq!(ids(&kept), vec![1, 3, 4]);
    assert_eq!(removed, 2);
}

#[test]
fn filter_forced_extension_counts_removed_posts() {
    let f = BlacklistFilter::new(&config(), ImageBoards::Danbooru, &[], &[], true, false, Some(Extension::PNG));
    let (removed, kept) = f.filter(sample());
    assert_eq!(ids(&kept), vec![2, 5]);
    assert_eq!(removed, 3);
}

#[test]
fn filter_forced_extension_is_counted_with_ratings() {
    let f = BlacklistFilter::new(
        &config(),
        ImageBoards::Danbooru,
        &[],
        &[Rating::Explicit, Rating::Questionable],
        true,
        false,
        Some(Extension::PNG),
    );
    let (removed, kept) = f.filter(sample());
    assert_eq!(ids(&kept), vec![2, 5]);
    assert_eq!(removed, 3);
}

#[test]
fn filter_drops_animated_posts() {
    let mut posts = sample();
    posts.push(Post {
        id: 6,
        website: ImageBoards::Danbooru,
        md5: String::new(),
        url: String::new(),
        extension: Extension::JPG,
        tags: vec![Tag::new("animated", TagType::Meta)],
        rating: Rating::General,
    });
    posts.push(post(7, Extension::MP4, Rating::General, &[]));
    posts.push(post(8, Extension::JPG, Rating::General, &["animated"]));
    let f = BlacklistFilter::new(&config(), ImageBoards::Danbooru, &[], &[], true, true, None);
    let (removed, kept) = f.filter(posts);
    assert_eq!(ids(&kept), vec![1, 2, 3, 5, 8]);
    assert_eq!(removed, 3);
}

#[test]
fn filter_twice_changes_nothing_more() {
    let extra = vec!["dog".to_string()];
    let f = BlacklistFilter::new(
        &config(),
        ImageBoards::Danbooru,
        &extra,
        &[Rating::General, Rating::Safe],
        false,
        true,
        None,
    );
    let (_, once) = f.filter(sample());
    let first = ids(&once);
    let (removed, twice) = f.filter(once);
    assert_eq!(ids(&twice), first);
    assert_eq!(removed, 0);
}

#[test]
fn filter_of_no_posts_removes_none() {
    let f = BlacklistFilter::new(&config(), ImageBoards::Danbooru, &[], &[Rating::Safe], false, true, None);
    let (removed, kept) = f.filter(Vec::new());
    assert!(kept.is_empty());
    assert_eq!(removed, 0);
}

#[test]
fn blacklist_get_finds_sections() {
    let c = config();
    assert_eq!(c.get("global").unwrap(), &vec!["gore".to_string()]);
    assert_eq!(c.get("e621").unwrap(), &vec!["feral".to_string()]);
    assert!(c.get("gelbooru").is_none());
}

#[test]
fn blacklist_later_section_replaces_earlier() {
    let c = GlobalBlacklist::from_entries(vec![
        BlacklistEntry { name: "global".to_string(), tags: vec!["a".to_string()] },
        BlacklistEntry { name: "global".to_string(), tags: vec!["b".to_string()] },
    ]);
    assert_eq!(c.get("global").unwrap(), &vec!["b".to_string()]);
    let d = c.duplicate();
    assert_eq!(d.get("global").unwrap(), &vec!["b".to_string()]);
}
