//! Posts for a web page: what a browser front end shows of a post, the
//! checks of a link search request, and the URL of a search through a CORS
//! proxy.
use vstd::prelude::*;

use crate::extractor_config::{default_server, default_server_spec, ServerConfig};
use crate::post::{board_domain, board_variant_name, rating_variant_name, Post, TagView};
use crate::text::{
    decimal, lower_seq, split_whitespace, str_eq, strings_view, to_lower_ascii, u64_to_decimal,
    words_seq,
};

verus! {

/// What a web page shows of a post.
pub struct WebPost {
    pub id: u64,
    pub direct_url: String,
    pub post_url: String,
    pub tags: Vec<String>,
    pub site: String,
    pub rating: String,
}

/// `https://` + host + `/posts/` + id: the page of a post.
pub open spec fn post_page_url(host: Seq<char>, id: u64) -> Seq<char> {
    "https://"@ + host + "/posts/"@ + decimal(id as nat)
}

/// The page of a post on `host`.
fn post_page(host: &str, id: u64) -> (r: String)
    ensures
        r@ == post_page_url(host@, id),
{
    let mut url = String::from_str("https://");
    url.append(host);
    url.append("/posts/");
    let n = u64_to_decimal(id);
    url.append(n.as_str());
    url
}

impl WebPost {
    /// The web view of a post: its id, file URL, page on the imageboard's
    /// domain, tag texts, imageboard and rating (by their variant names).
    pub fn from_post(post: &Post) -> (r: WebPost)
        ensures
            r.id == post.id,
            r.direct_url@ == post.url@,
            r.post_url@ == post_page_url(board_domain(post.website), post.id),
            strings_view(r.tags@) == post@.tags.map_values(|t: TagView| t.text),
            r.site@ == board_variant_name(post.website),
            r.rating@ == rating_variant_name(post.rating),
    {
        let domain = post.website.domain();
        let mut tags: Vec<String> = Vec::new();
        for i in 0..post.tags.len()
            invariant
                strings_view(tags@) == post@.tags.take(i as int).map_values(|t: TagView| t.text),
        {
            tags.push(String::from_str(post.tags[i].tag()));
            assert(post@.tags[i as int] == post.tags@[i as int]@);
            assert(post@.tags.take(i + 1).map_values(|t: TagView| t.text) =~= post@.tags.take(
                i as int,
            ).map_values(|t: TagView| t.text).push(post@.tags[i as int].text));
        }
        assert(post@.tags.take(post.tags.len() as int) =~= post@.tags);
        WebPost {
            id: post.id,
            direct_url: post.url.clone(),
            post_url: post_page(domain.as_str(), post.id),
            tags,
            site: post.website.variant_name(),
            rating: post.rating.variant_name(),
        }
    }
}

/// The web views of the posts, in order.
pub fn web_posts(posts: &[Post]) -> (r: Vec<WebPost>)
    ensures
        r@.len() == posts@.len(),
        forall|i: int|
            0 <= i < r@.len() ==> (#[trigger] r@[i]).id == posts@[i].id && r@[i].direct_url@
                == posts@[i].url@ && r@[i].post_url@ == post_page_url(
                board_domain(posts@[i].website),
                posts@[i].id,
            ) && strings_view(r@[i].tags@) == posts@[i]@.tags.map_values(|t: TagView| t.text)
                && r@[i].site@ == board_variant_name(posts@[i].website) && r@[i].rating@
                == rating_variant_name(posts@[i].rating),
{
    let mut out: Vec<WebPost> = Vec::new();
    for i in 0..posts.len()
        invariant
            out@.len() == i,
            forall|j: int|
                0 <= j < i ==> (#[trigger] out@[j]).id == posts@[j].id && out@[j].direct_url@
                    == posts@[j].url@ && out@[j].post_url@ == post_page_url(
                    board_domain(posts@[j].website),
                    posts@[j].id,
                ) && strings_view(out@[j].tags@) == posts@[j]@.tags.map_values(
                    |t: TagView| t.text,
                ) && out@[j].site@ == board_variant_name(posts@[j].website) && out@[j].rating@
                    == rating_variant_name(posts@[j].rating),
    {
        out.push(WebPost::from_post(&posts[i]));
    }
    out
}

/// The imageboards a link search can use.
#[derive(Clone, Copy, Debug, PartialEq, Eq, Structural)]
pub enum LinkSite {
    Danbooru,
    E621,
}

/// A checked link search: the imageboard, the search tags and the server.
pub struct LinkRequest {
    pub site: LinkSite,
    pub tags: Vec<String>,
    pub server: ServerConfig,
}

/// The text of an error message made of `prefix` and `name`.
pub open spec fn message(prefix: Seq<char>, name: Seq<char>) -> Seq<char> {
    prefix + name
}

fn message_of(prefix: &str, name: &str) -> (r: String)
    ensures
        r@ == message(prefix@, name@),
{
    let mut m = String::from_str(prefix);
    m.append(name);
    m
}

/// Checks a link search for the site named `site_name` with the
/// whitespace-separated tags `tags_str`: there must be a tag, the name must
/// be that of a built-in server, and (in lower case) one of `danbooru` and
/// `e621`. Each failure is a message, checked in that order.
pub fn link_request(site_name: &str, tags_str: &str) -> (r: Result<LinkRequest, String>)
    ensures
        words_seq(tags_str@).len() == 0 ==> (r matches Err(m) && m@ == "No tags provided."@),
        words_seq(tags_str@).len() > 0 && default_server_spec(site_name@) is None ==> (r matches Err(
            m,
        ) && m@ == message("Invalid site name: "@, site_name@)),
        words_seq(tags_str@).len() > 0 && default_server_spec(site_name@) is Some ==> {
            let name = lower_seq(site_name@);
            if name == "danbooru"@ || name == "e621"@ {
                &&& r matches Ok(req)
                &&& req.site == (if name == "danbooru"@ {
                    LinkSite::Danbooru
                } else {
                    LinkSite::E621
                })
                &&& strings_view(req.tags@) == words_seq(tags_str@)
                &&& default_server_spec(site_name@) == Some(req.server@)
            } else {
                r matches Err(m) && m@ == message("Unsupported site: "@, site_name@)
            }
        },
{
    let tags = split_whitespace(tags_str);
    if tags.len() == 0 {
        return Err(String::from_str("No tags provided."));
    }
    let server = match default_server(site_name) {
        Some(c) => c,
        None => {
            return Err(message_of("Invalid site name: ", site_name));
        },
    };
    let name = to_lower_ascii(site_name);
    if str_eq(name.as_str(), "danbooru") {
        Ok(LinkRequest { site: LinkSite::Danbooru, tags, server })
    } else if str_eq(name.as_str(), "e621") {
        Ok(LinkRequest { site: LinkSite::E621, tags, server })
    } else {
        Err(message_of("Unsupported site: ", site_name))
    }
}

/// The host a proxied search asks: Danbooru's for `danbooru`, else e621's.
pub open spec fn proxy_host(site_name: Seq<char>) -> Seq<char> {
    if site_name == "danbooru"@ {
        "danbooru.donmai.us"@
    } else {
        "e621.net"@
    }
}

fn proxy_host_of(site_name: &str) -> (r: &str)
    ensures
        r@ == proxy_host(site_name@),
{
    if str_eq(site_name, "danbooru") {
        "danbooru.donmai.us"
    } else {
        "e621.net"
    }
}

/// The post list URL of the API of a proxied search.
pub open spec fn api_posts_url(site_name: Seq<char>, limit: u16, tags: Seq<char>) -> Seq<char> {
    "https://"@ + proxy_host(site_name) + "/posts.json?limit="@ + decimal(limit as nat)
        + "&tags="@ + tags
}

/// Bytes that URL encoding keeps as they are: ASCII letters and digits,
/// `-`, `.`, `_` and `~`.
pub open spec fn url_unreserved(b: u8) -> bool {
    ||| 48 <= b <= 57
    ||| 65 <= b <= 90
    ||| 97 <= b <= 122
    ||| b == 45
    ||| b == 46
    ||| b == 95
    ||| b == 126
}

/// The upper-case hexadecimal digit of `d < 16`.
pub open spec fn hex_digit(d: u8) -> char {
    if d < 10 {
        (48 + d) as char
    } else {
        (55 + d) as char
    }
}

/// Percent-encoding of bytes: unreserved bytes stay, every other byte
/// becomes `%` and its two upper-case hexadecimal digits.
pub open spec fn percent_encoded(bytes: Seq<u8>) -> Seq<char>
    decreases bytes.len(),
{
    if bytes.len() == 0 {
        Seq::empty()
    } else {
        let b = bytes[0];
        (if url_unreserved(b) {
            seq![b as char]
        } else {
            seq!['%', hex_digit(b / 16), hex_digit(b % 16)]
        }) + percent_encoded(bytes.drop_first())
    }
}

/// `urlencoding::encode`: percent-encodes the UTF-8 bytes of `data`, keeping
/// ASCII letters, digits, `-`, `.`, `_` and `~`, with upper-case hex digits.
#[verifier::external_body]
fn url_encode(data: &str) -> (r: String)
    ensures
        r@ == percent_encoded(vstd::utf8::encode_utf8(data@)),
{
    urlencoding::encode(data).into_owned()
}

/// The URL of a post search through the public CORS proxy: the proxy's
/// address followed by the URL-encoded post list URL of the site's API.
pub fn proxy_url(site_name: &str, tags_str: &str, limit: u16) -> (r: String)
    ensures
        r@ == "https://corsproxy.io/?"@ + percent_encoded(
            vstd::utf8::encode_utf8(api_posts_url(site_name@, limit, tags_str@)),
        ),
{
    let mut api = String::from_str("https://");
    api.append(proxy_host_of(site_name));
    api.append("/posts.json?limit=");
    let n = u64_to_decimal(limit as u64);
    api.append(n.as_str());
    api.append("&tags=");
    api.append(tags_str);
    let mut url = String::from_str("https://corsproxy.io/?");
    let encoded = url_encode(api.as_str());
    url.append(encoded.as_str());
    url
}

/// A post as the proxied API returns it.
pub struct ApiPost {
    pub id: u64,
    pub file_url: Option<String>,
    pub source: Option<String>,
    pub large_file_url: Option<String>,
    pub tag_string: String,
    pub rating: String,
}

/// The file URL of an API post: the large file's, else the file's, else
/// empty.
pub open spec fn api_direct_url(p: ApiPost) -> Seq<char> {
    match p.large_file_url {
        Some(u) => u@,
        None => match p.file_url {
            Some(u) => u@,
            None => Seq::empty(),
        },
    }
}

impl WebPost {
    /// The web view of a post of the proxied API of `site_name`.
    pub fn from_api_post(p: &ApiPost, site_name: &str) -> (r: WebPost)
        ensures
            r.id == p.id,
            r.direct_url@ == api_direct_url(*p),
            r.post_url@ == post_page_url(proxy_host(site_name@), p.id),
            strings_view(r.tags@) == words_seq(p.tag_string@),
            r.site@ == site_name@,
            r.rating@ == p.rating@,
    {
        let direct_url = match &p.large_file_url {
            Some(u) => u.clone(),
            None => match &p.file_url {
                Some(u) => u.clone(),
                None => String::new(),
            },
        };
        WebPost {
            id: p.id,
            direct_url,
            post_url: post_page(proxy_host_of(site_name), p.id),
            tags: split_whitespace(p.tag_string.as_str()),
            site: String::from_str(site_name),
            rating: p.rating.clone(),
        }
    }
}

} // verus!
