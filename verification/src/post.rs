//! The post model shared by every extractor: imageboards, ratings, file
//! extensions, tags and posts.
use vstd::prelude::*;

use crate::text::{chars_of, strings_view};

verus! {

/// The imageboard software families the extractors speak to.
#[derive(Clone, Copy, Debug, PartialEq, Eq, Structural)]
pub enum ImageBoards {
    Danbooru,
    E621,
    Gelbooru,
    GelbooruV0_2,
    Moebooru,
}

/// The user-facing name of each imageboard.
pub open spec fn board_name(b: ImageBoards) -> Seq<char> {
    match b {
        ImageBoards::Danbooru => "Danbooru"@,
        ImageBoards::E621 => "e621"@,
        ImageBoards::Gelbooru => "Gelbooru"@,
        ImageBoards::GelbooruV0_2 => "Gelbooru_v0.2"@,
        ImageBoards::Moebooru => "Moebooru"@,
    }
}

/// The variant name, as `{:?}` prints it.
pub open spec fn board_variant_name(b: ImageBoards) -> Seq<char> {
    match b {
        ImageBoards::Danbooru => "Danbooru"@,
        ImageBoards::E621 => "E621"@,
        ImageBoards::Gelbooru => "Gelbooru"@,
        ImageBoards::GelbooruV0_2 => "GelbooruV0_2"@,
        ImageBoards::Moebooru => "Moebooru"@,
    }
}

/// The main domain of the reference site of each imageboard.
pub open spec fn board_domain(b: ImageBoards) -> Seq<char> {
    match b {
        ImageBoards::Danbooru => "danbooru.donmai.us"@,
        ImageBoards::E621 => "e621.net"@,
        ImageBoards::Gelbooru => "gelbooru.com"@,
        ImageBoards::GelbooruV0_2 => "realbooru.com"@,
        ImageBoards::Moebooru => "konachan.com"@,
    }
}

/// The imageboard whose lower-case name is `s`, if any.
pub open spec fn board_from_name(s: Seq<char>) -> Option<ImageBoards> {
    if s == "danbooru"@ {
        Some(ImageBoards::Danbooru)
    } else if s == "e621"@ {
        Some(ImageBoards::E621)
    } else if s == "gelbooru"@ {
        Some(ImageBoards::Gelbooru)
    } else if s == "gelbooru_v0.2"@ {
        Some(ImageBoards::GelbooruV0_2)
    } else if s == "moebooru"@ {
        Some(ImageBoards::Moebooru)
    } else {
        None
    }
}

impl ImageBoards {
    /// The user-facing name of the imageboard.
    pub fn to_string(&self) -> (r: String)
        ensures
            r@ == board_name(*self),
    {
        match self {
            ImageBoards::Danbooru => String::from_str("Danbooru"),
            ImageBoards::E621 => String::from_str("e621"),
            ImageBoards::Gelbooru => String::from_str("Gelbooru"),
            ImageBoards::GelbooruV0_2 => String::from_str("Gelbooru_v0.2"),
            ImageBoards::Moebooru => String::from_str("Moebooru"),
        }
    }

    /// The variant name of the imageboard.
    pub fn variant_name(&self) -> (r: String)
        ensures
            r@ == board_variant_name(*self),
    {
        match self {
            ImageBoards::Danbooru => String::from_str("Danbooru"),
            ImageBoards::E621 => String::from_str("E621"),
            ImageBoards::Gelbooru => String::from_str("Gelbooru"),
            ImageBoards::GelbooruV0_2 => String::from_str("GelbooruV0_2"),
            ImageBoards::Moebooru => String::from_str("Moebooru"),
        }
    }

    /// The main domain of the imageboard's reference site.
    pub fn domain(&self) -> (r: String)
        ensures
            r@ == board_domain(*self),
    {
        match self {
            ImageBoards::Danbooru => String::from_str("danbooru.donmai.us"),
            ImageBoards::E621 => String::from_str("e621.net"),
            ImageBoards::Gelbooru => String::from_str("gelbooru.com"),
            ImageBoards::GelbooruV0_2 => String::from_str("realbooru.com"),
            ImageBoards::Moebooru => String::from_str("konachan.com"),
        }
    }

    /// Parses a lower-case imageboard name.
    pub fn from_name(s: &str) -> (r: Option<ImageBoards>)
        ensures
            r == board_from_name(s@),
    {
        let v = chars_of(s);
        if seq_is(&v, "danbooru") {
            Some(ImageBoards::Danbooru)
        } else if seq_is(&v, "e621") {
            Some(ImageBoards::E621)
        } else if seq_is(&v, "gelbooru") {
            Some(ImageBoards::Gelbooru)
        } else if seq_is(&v, "gelbooru_v0.2") {
            Some(ImageBoards::GelbooruV0_2)
        } else if seq_is(&v, "moebooru") {
            Some(ImageBoards::Moebooru)
        } else {
            None
        }
    }
}

/// Whether the characters in `v` spell `lit`.
pub fn seq_is(v: &Vec<char>, lit: &str) -> (r: bool)
    ensures
        r == (v@ == lit@),
{
    let w = chars_of(lit);
    if v.len() != w.len() {
        return false;
    }
    let mut i: usize = 0;
    while i < v.len()
        invariant
            w@ == lit@,
            v.len() == w.len(),
            0 <= i <= v.len(),
            forall|j: int| 0 <= j < i ==> v@[j] == w@[j],
        decreases v.len() - i,
    {
        if v[i] != w[i] {
            return false;
        }
        i += 1;
    }
    assert(v@ =~= w@);
    true
}

/// The content rating of a post.
#[derive(Clone, Copy, Debug, PartialEq, Eq, Structural)]
pub enum Rating {
    General,
    Safe,
    Questionable,
    Explicit,
    Unknown,
}

/// The position of a rating in declaration order, by which ratings sort.
pub open spec fn rating_rank(r: Rating) -> u8 {
    match r {
        Rating::General => 0,
        Rating::Safe => 1,
        Rating::Questionable => 2,
        Rating::Explicit => 3,
        Rating::Unknown => 4,
    }
}

/// The rating that an API rating string names.
pub open spec fn rating_from_str(s: Seq<char>) -> Rating {
    if s == "g"@ || s == "general"@ {
        Rating::General
    } else if s == "s"@ || s == "safe"@ {
        Rating::Safe
    } else if s == "q"@ || s == "questionable"@ {
        Rating::Questionable
    } else if s == "e"@ || s == "explicit"@ {
        Rating::Explicit
    } else {
        Rating::Unknown
    }
}

/// The rating names: `g`/`general`, `s`/`safe`, `q`/`questionable` and
/// `e`/`explicit` name the four ratings, and any other text none of them.
pub proof fn lemma_rating_names(s: Seq<char>)
    ensures
        s == "g"@ || s == "general"@ ==> rating_from_str(s) == Rating::General,
        s == "s"@ || s == "safe"@ ==> rating_from_str(s) == Rating::Safe,
        s == "q"@ || s == "questionable"@ ==> rating_from_str(s) == Rating::Questionable,
        s == "e"@ || s == "explicit"@ ==> rating_from_str(s) == Rating::Explicit,
        s != "g"@ && s != "general"@ && s != "s"@ && s != "safe"@ && s != "q"@ && s
            != "questionable"@ && s != "e"@ && s != "explicit"@ ==> rating_from_str(s)
            == Rating::Unknown,
{
    reveal_strlit("g");
    reveal_strlit("general");
    reveal_strlit("s");
    reveal_strlit("safe");
    reveal_strlit("q");
    reveal_strlit("questionable");
    reveal_strlit("e");
    reveal_strlit("explicit");
    assert("g"@[0] != "s"@[0] && "g"@[0] != "q"@[0] && "g"@[0] != "e"@[0]);
    assert("s"@[0] != "q"@[0] && "s"@[0] != "e"@[0] && "q"@[0] != "e"@[0]);
    assert("safe"@.len() != "general"@.len() && "safe"@.len() != "explicit"@.len());
    assert("general"@.len() != "questionable"@.len() && "general"@.len() != "explicit"@.len());
    assert("questionable"@.len() != "explicit"@.len() && "safe"@.len() != "questionable"@.len());
}

/// The variant name of a rating, as `{:?}` prints it.
pub open spec fn rating_variant_name(r: Rating) -> Seq<char> {
    match r {
        Rating::General => "General"@,
        Rating::Safe => "Safe"@,
        Rating::Questionable => "Questionable"@,
        Rating::Explicit => "Explicit"@,
        Rating::Unknown => "Unknown"@,
    }
}

impl Rating {
    /// Reads a rating as the imageboard APIs write it: a one-letter code or
    /// the full word; anything else is `Unknown`.
    pub fn from_rating_str(s: &str) -> (r: Rating)
        ensures
            r == rating_from_str(s@),
    {
        let v = chars_of(s);
        if seq_is(&v, "g") || seq_is(&v, "general") {
            Rating::General
        } else if seq_is(&v, "s") || seq_is(&v, "safe") {
            Rating::Safe
        } else if seq_is(&v, "q") || seq_is(&v, "questionable") {
            Rating::Questionable
        } else if seq_is(&v, "e") || seq_is(&v, "explicit") {
            Rating::Explicit
        } else {
            Rating::Unknown
        }
    }

    /// The sort position of the rating.
    pub fn rank(&self) -> (r: u8)
        ensures
            r == rating_rank(*self),
    {
        match self {
            Rating::General => 0,
            Rating::Safe => 1,
            Rating::Questionable => 2,
            Rating::Explicit => 3,
            Rating::Unknown => 4,
        }
    }

    /// The variant name of the rating.
    pub fn variant_name(&self) -> (r: String)
        ensures
            r@ == rating_variant_name(*self),
    {
        match self {
            Rating::General => String::from_str("General"),
            Rating::Safe => String::from_str("Safe"),
            Rating::Questionable => String::from_str("Questionable"),
            Rating::Explicit => String::from_str("Explicit"),
            Rating::Unknown => String::from_str("Unknown"),
        }
    }
}

/// The file format of a post.
#[derive(Clone, Copy, Debug, PartialEq, Eq, Structural)]
pub enum Extension {
    AVIF,
    JXL,
    JPG,
    PNG,
    WEBP,
    GIF,
    WEBM,
    MP4,
    Ugoira,
    Unknown,
}

/// The format that a file extension names.
pub open spec fn extension_from_str(s: Seq<char>) -> Extension {
    if s == "jpg"@ || s == "jpeg"@ {
        Extension::JPG
    } else if s == "png"@ {
        Extension::PNG
    } else if s == "webp"@ {
        Extension::WEBP
    } else if s == "gif"@ {
        Extension::GIF
    } else if s == "webm"@ {
        Extension::WEBM
    } else if s == "mp4"@ {
        Extension::MP4
    } else if s == "zip"@ {
        Extension::Ugoira
    } else if s == "avif"@ {
        Extension::AVIF
    } else if s == "jxl"@ {
        Extension::JXL
    } else {
        Extension::Unknown
    }
}

/// Animated formats: GIF, WEBM, MP4 and Ugoira archives.
pub open spec fn extension_is_video(e: Extension) -> bool {
    e == Extension::GIF || e == Extension::WEBM || e == Extension::MP4 || e == Extension::Ugoira
}

impl Extension {
    /// The format named by a file extension.
    pub fn guess_format(s: &str) -> (r: Extension)
        ensures
            r == extension_from_str(s@),
    {
        let v = chars_of(s);
        if seq_is(&v, "jpg") || seq_is(&v, "jpeg") {
            Extension::JPG
        } else if seq_is(&v, "png") {
            Extension::PNG
        } else if seq_is(&v, "webp") {
            Extension::WEBP
        } else if seq_is(&v, "gif") {
            Extension::GIF
        } else if seq_is(&v, "webm") {
            Extension::WEBM
        } else if seq_is(&v, "mp4") {
            Extension::MP4
        } else if seq_is(&v, "zip") {
            Extension::Ugoira
        } else if seq_is(&v, "avif") {
            Extension::AVIF
        } else if seq_is(&v, "jxl") {
            Extension::JXL
        } else {
            Extension::Unknown
        }
    }

    /// Whether the format is an animation or video.
    pub fn is_video(&self) -> (r: bool)
        ensures
            r == extension_is_video(*self),
    {
        match self {
            Extension::GIF | Extension::WEBM | Extension::MP4 | Extension::Ugoira => true,
            _ => false,
        }
    }
}

/// The category of a tag.
#[derive(Clone, Copy, Debug, PartialEq, Eq, Structural)]
pub enum TagType {
    Author,
    Copyright,
    Character,
    General,
    Meta,
    Species,
    Lore,
    Any,
}

/// A tag of a post: its text and its category.
#[derive(Debug)]
pub struct Tag {
    tag: String,
    tag_type: TagType,
}

pub struct TagView {
    pub text: Seq<char>,
    pub kind: TagType,
}

impl View for Tag {
    type V = TagView;

    closed spec fn view(&self) -> TagView {
        TagView { text: self.tag@, kind: self.tag_type }
    }
}

/// The views of a sequence of tags.
pub open spec fn tags_view(v: Seq<Tag>) -> Seq<TagView> {
    v.map_values(|t: Tag| t@)
}

/// Tags of one category made from the given texts, in order.
pub open spec fn typed_tags(texts: Seq<Seq<char>>, kind: TagType) -> Seq<TagView> {
    texts.map_values(|t: Seq<char>| TagView { text: t, kind })
}

impl Tag {
    pub fn new(tag: &str, tag_type: TagType) -> (r: Tag)
        ensures
            r@ == (TagView { text: tag@, kind: tag_type }),
    {
        Tag { tag: String::from_str(tag), tag_type }
    }

    pub fn from_string(tag: String, tag_type: TagType) -> (r: Tag)
        ensures
            r@ == (TagView { text: tag@, kind: tag_type }),
    {
        Tag { tag, tag_type }
    }

    /// The text of the tag.
    pub fn tag(&self) -> (r: &str)
        ensures
            r@ == self@.text,
    {
        self.tag.as_str()
    }

    /// The category of the tag.
    pub fn tag_type(&self) -> (r: TagType)
        ensures
            r == self@.kind,
    {
        self.tag_type
    }

    /// A copy of the tag.
    pub fn duplicate(&self) -> (r: Tag)
        ensures
            r@ == self@,
    {
        Tag { tag: self.tag.clone(), tag_type: self.tag_type }
    }
}

/// Tags of one category, one per string, in order.
pub fn make_tags(texts: &Vec<String>, kind: TagType) -> (r: Vec<Tag>)
    ensures
        tags_view(r@) == typed_tags(strings_view(texts@), kind),
{
    let mut r: Vec<Tag> = Vec::new();
    let mut i: usize = 0;
    while i < texts.len()
        invariant
            0 <= i <= texts.len(),
            tags_view(r@) == typed_tags(strings_view(texts@).take(i as int), kind),
        decreases texts.len() - i,
    {
        let ghost before = tags_view(r@);
        r.push(Tag::new(texts[i].as_str(), kind));
        assert(tags_view(r@) =~= before.push(TagView { text: texts@[i as int]@, kind }));
        assert(typed_tags(strings_view(texts@).take(i + 1), kind) =~= typed_tags(
            strings_view(texts@).take(i as int),
            kind,
        ).push(TagView { text: texts@[i as int]@, kind }));
        i += 1;
    }
    assert(strings_view(texts@).take(texts.len() as int) =~= strings_view(texts@));
    r
}

/// Appends the tags of `more` to `tags`, keeping order.
pub fn append_tags(tags: &mut Vec<Tag>, more: Vec<Tag>)
    ensures
        tags_view(final(tags)@) == tags_view(old(tags)@) + tags_view(more@),
{
    let ghost orig = tags_view(tags@);
    let mut more = more;
    let ghost m = more@;
    tags.append(&mut more);
    assert(tags_view(tags@) =~= orig + tags_view(m));
}

/// A post of an imageboard, mapped from the site's own format.
#[derive(Debug)]
pub struct Post {
    pub id: u64,
    pub website: ImageBoards,
    pub md5: String,
    pub url: String,
    pub extension: Extension,
    pub tags: Vec<Tag>,
    pub rating: Rating,
}

pub struct PostView {
    pub id: u64,
    pub website: ImageBoards,
    pub md5: Seq<char>,
    pub url: Seq<char>,
    pub extension: Extension,
    pub tags: Seq<TagView>,
    pub rating: Rating,
}

impl View for Post {
    type V = PostView;

    open spec fn view(&self) -> PostView {
        PostView {
            id: self.id,
            website: self.website,
            md5: self.md5@,
            url: self.url@,
            extension: self.extension,
            tags: tags_view(self.tags@),
            rating: self.rating,
        }
    }
}

/// The views of a sequence of posts.
pub open spec fn posts_view(v: Seq<Post>) -> Seq<PostView> {
    v.map_values(|p: Post| p@)
}

/// Newest first: ids never increase along the sequence.
pub open spec fn sorted_by_id_desc(s: Seq<PostView>) -> bool {
    forall|i: int, j: int| 0 <= i < j < s.len() ==> s[i].id >= s[j].id
}

/// Orders the posts newest first (by decreasing id), as sorting posts and
/// reversing them does.
pub fn sort_posts_desc(list: Vec<Post>) -> (r: Vec<Post>)
    ensures
        posts_view(r@).to_multiset() == posts_view(list@).to_multiset(),
        sorted_by_id_desc(posts_view(r@)),
        r@.len() == list@.len(),
{
    let ghost input = posts_view(list@);
    let mut out: Vec<Post> = Vec::new();
    let mut i: usize = 0;
    broadcast use vstd::seq_lib::group_to_multiset_ensures;
    for p in it: list
        invariant
            posts_view(it.seq()) == input,
            sorted_by_id_desc(posts_view(out@)),
            posts_view(out@).to_multiset() == input.take(it.index() as int).to_multiset(),
            out@.len() == it.index(),
    {
        let mut k: usize = 0;
        while k < out.len() && out[k].id > p.id
            invariant
                0 <= k <= out.len(),
                sorted_by_id_desc(posts_view(out@)),
                forall|j: int| 0 <= j < k ==> #[trigger] out@[j].id > p.id,
            decreases out.len() - k,
        {
            k += 1;
        }
        assert(forall|j: int| k <= j < out.len() ==> #[trigger] out@[j].id <= p.id) by {
            if k < out.len() {
                assert(posts_view(out@)[k as int].id <= p.id);
                assert forall|j: int| k <= j < out.len() implies #[trigger] out@[j].id <= p.id by {
                    assert(posts_view(out@)[k as int].id >= posts_view(out@)[j].id);
                }
            }
        }
        let ghost before = posts_view(out@);
        let ghost pv = p@;
        proof {
            assert(it.seq()[it.index() as int]@ == pv);
            assert(input[it.index() as int] == pv);
        }
        out.insert(k, p);
        proof {
            assert(posts_view(out@) =~= before.insert(k as int, pv));
            vstd::seq_lib::to_multiset_insert(before, k as int, pv);
            let t = input.take(it.index() as int);
            assert(input.take(it.index() + 1) =~= t.push(pv));
            vstd::seq_lib::to_multiset_build(t, pv);
            assert(posts_view(out@).to_multiset() == input.take(it.index() + 1).to_multiset());
            let nv = posts_view(out@);
            assert forall|a: int, b: int| 0 <= a < b < nv.len() implies nv[a].id >= nv[b].id by {
                if a < k && b < k {
                    assert(before[a].id >= before[b].id);
                } else if a < k && b == k {
                    assert(out@[a].id > pv.id);
                } else if a < k && b > k {
                    assert(before[a].id >= before[b - 1].id);
                } else if a == k {
                    assert(before[b - 1].id <= pv.id);
                } else {
                    assert(before[a - 1].id >= before[b - 1].id);
                }
            }
        }
    }
    assert(input.take(input.len() as int) =~= input);
    out
}

/// A collection of posts found for a tag selection.
pub struct PostQueue {
    pub imageboard: ImageBoards,
    pub posts: Vec<Post>,
    pub tags: Vec<String>,
}

} // verus!
