//! Server configurations: API endpoints, user agents and limits of each
//! imageboard server.
use vstd::prelude::*;

use crate::caps::ExtractorFeatures;
use crate::extractor::SiteApi;
use crate::imageboards::danbooru::DanbooruApi;
use crate::imageboards::e621::E621Api;
use crate::imageboards::gelbooru::GelbooruApi;
use crate::imageboards::moebooru::MoebooruApi;
use crate::post::{board_from_name, ImageBoards};
use crate::text::{str_eq, strings_view};

verus! {

/// The configuration of one imageboard server.
#[derive(Debug, Clone)]
pub struct ServerConfig {
    pub name: String,
    pub pretty_name: String,
    pub server: ImageBoards,
    pub client_user_agent: String,
    pub extractor_user_agent: String,
    pub base_url: String,
    pub post_url: Option<String>,
    pub post_list_url: Option<String>,
    pub pool_idx_url: Option<String>,
    pub max_post_limit: u16,
    pub auth_url: Option<String>,
    pub image_url: Option<String>,
}

pub struct ServerConfigView {
    pub name: Seq<char>,
    pub pretty_name: Seq<char>,
    pub server: ImageBoards,
    pub client_user_agent: Seq<char>,
    pub extractor_user_agent: Seq<char>,
    pub base_url: Seq<char>,
    pub post_url: Option<Seq<char>>,
    pub post_list_url: Option<Seq<char>>,
    pub pool_idx_url: Option<Seq<char>>,
    pub max_post_limit: u16,
    pub auth_url: Option<Seq<char>>,
    pub image_url: Option<Seq<char>>,
}

pub open spec fn opt_view(o: Option<String>) -> Option<Seq<char>> {
    match o {
        Some(s) => Some(s@),
        None => None,
    }
}

impl View for ServerConfig {
    type V = ServerConfigView;

    open spec fn view(&self) -> ServerConfigView {
        ServerConfigView {
            name: self.name@,
            pretty_name: self.pretty_name@,
            server: self.server,
            client_user_agent: self.client_user_agent@,
            extractor_user_agent: self.extractor_user_agent@,
            base_url: self.base_url@,
            post_url: opt_view(self.post_url),
            post_list_url: opt_view(self.post_list_url),
            pool_idx_url: opt_view(self.pool_idx_url),
            max_post_limit: self.max_post_limit,
            auth_url: opt_view(self.auth_url),
            image_url: opt_view(self.image_url),
        }
    }
}

/// The user agent of downloads, for servers without one of their own.
pub open spec fn default_cli_ua() -> Seq<char> {
    "Rust Imageboard Downloader/0.1.0"@
}

/// The user agent of API requests, for servers without one of their own.
pub open spec fn default_ext_ua() -> Seq<char> {
    "Rust Imageboard Post Extractor/0.1.0"@
}

/// A server configuration with the given fields and no image URL.
pub open spec fn config_view(
    name: Seq<char>,
    pretty_name: Seq<char>,
    server: ImageBoards,
    client_ua: Seq<char>,
    ext_ua: Seq<char>,
    base_url: Seq<char>,
    post_url: Option<Seq<char>>,
    post_list_url: Seq<char>,
    pool_idx_url: Option<Seq<char>>,
    max_post_limit: u16,
    auth_url: Option<Seq<char>>,
) -> ServerConfigView {
    ServerConfigView {
        name,
        pretty_name,
        server,
        client_user_agent: client_ua,
        extractor_user_agent: ext_ua,
        base_url,
        post_url,
        post_list_url: Some(post_list_url),
        pool_idx_url,
        max_post_limit,
        auth_url,
        image_url: None,
    }
}

/// The built-in configuration of the server named `name`, if there is one:
/// danbooru, e621, gelbooru, rule34, realbooru and konachan.
pub open spec fn default_server_spec(name: Seq<char>) -> Option<ServerConfigView> {
    if name == "danbooru"@ {
        Some(
            config_view(
                "danbooru"@,
                "Danbooru"@,
                ImageBoards::Danbooru,
                "Rust Imageboard Downloader/0.1.0 (by Danbooru user FerrahWolfeh)"@,
                "Rust Imageboard Post Extractor/0.1.0 (by Danbooru user FerrahWolfeh)"@,
                "https://danbooru.donmai.us"@,
                Some("https://danbooru.donmai.us/posts/"@),
                "https://danbooru.donmai.us/posts.json"@,
                Some("https://danbooru.donmai.us/pools"@),
                200,
                Some("https://danbooru.donmai.us/profile.json"@),
            ),
        )
    } else if name == "e621"@ {
        Some(
            config_view(
                "e621"@,
                "e621"@,
                ImageBoards::E621,
                "Rust Imageboard Downloader/0.1.0 (by e621 user FerrahWolfeh)"@,
                "Rust Imageboard Post Extractor/0.1.0 (by e621 user FerrahWolfeh)"@,
                "https://e621.net"@,
                Some("https://e621.net/posts/"@),
                "https://e621.net/posts.json"@,
                Some("https://e621.net/pools"@),
                320,
                Some("https://e621.net/users/"@),
            ),
        )
    } else if name == "gelbooru"@ {
        Some(
            config_view(
                "gelbooru"@,
                "Gelbooru"@,
                ImageBoards::Gelbooru,
                "Rust Imageboard Downloader/0.1.0 (by gelbooru user FerrahWolfeh)"@,
                "Rust Imageboard Post Extractor/0.1.0 (by gelbooru user FerrahWolfeh)"@,
                "https://gelbooru.com"@,
                Some("https://gelbooru.com/index.php?page=dapi&s=post&q=index&json=1"@),
                "https://gelbooru.com/index.php?page=dapi&s=post&q=index&json=1"@,
                None,
                100,
                None,
            ),
        )
    } else if name == "rule34"@ {
        Some(
            config_view(
                "rule34"@,
                "Rule34"@,
                ImageBoards::Gelbooru,
                default_cli_ua(),
                default_ext_ua(),
                "https://rule34.xxx"@,
                Some("https://api.rule34.xxx/index.php?page=dapi&s=post&q=index&json=1"@),
                "https://api.rule34.xxx/index.php?page=dapi&s=post&q=index&json=1"@,
                None,
                1000,
                None,
            ),
        )
    } else if name == "realbooru"@ {
        Some(
            config_view(
                "realbooru"@,
                "Realbooru"@,
                ImageBoards::GelbooruV0_2,
                default_cli_ua(),
                default_ext_ua(),
                "https://realbooru.com"@,
                Some("http://realbooru.com/index.php?page=dapi&s=post&q=index&json=1"@),
                "http://realbooru.com/index.php?page=dapi&s=post&q=index&json=1"@,
                None,
                1000,
                None,
            ),
        )
    } else if name == "konachan"@ {
        Some(
            config_view(
                "konachan"@,
                "Konachan"@,
                ImageBoards::Moebooru,
                default_cli_ua(),
                default_ext_ua(),
                "https://konachan.com"@,
                None,
                "https://konachan.com/post.json"@,
                None,
                100,
                None,
            ),
        )
    } else {
        None
    }
}

fn make_config(
    name: &str,
    pretty_name: &str,
    server: ImageBoards,
    client_ua: &str,
    ext_ua: &str,
    base_url: &str,
    post_url: Option<&str>,
    post_list_url: &str,
    pool_idx_url: Option<&str>,
    max_post_limit: u16,
    auth_url: Option<&str>,
) -> (r: ServerConfig)
    ensures
        r@ == config_view(
            name@,
            pretty_name@,
            server,
            client_ua@,
            ext_ua@,
            base_url@,
            match post_url {
                Some(s) => Some(s@),
                None => None,
            },
            post_list_url@,
            match pool_idx_url {
                Some(s) => Some(s@),
                None => None,
            },
            max_post_limit,
            match auth_url {
                Some(s) => Some(s@),
                None => None,
            },
        ),
{
    ServerConfig {
        name: String::from_str(name),
        pretty_name: String::from_str(pretty_name),
        server,
        client_user_agent: String::from_str(client_ua),
        extractor_user_agent: String::from_str(ext_ua),
        base_url: String::from_str(base_url),
        post_url: match post_url {
            Some(s) => Some(String::from_str(s)),
            None => None,
        },
        post_list_url: Some(String::from_str(post_list_url)),
        pool_idx_url: match pool_idx_url {
            Some(s) => Some(String::from_str(s)),
            None => None,
        },
        max_post_limit,
        auth_url: match auth_url {
            Some(s) => Some(String::from_str(s)),
            None => None,
        },
        image_url: None,
    }
}

/// The built-in configuration of the server named `name`, if there is one.
pub fn default_server(name: &str) -> (r: Option<ServerConfig>)
    ensures
        match r {
            Some(c) => default_server_spec(name@) == Some(c@),
            None => default_server_spec(name@) is None,
        },
{
    if str_eq(name, "danbooru") {
        Some(
            make_config(
                "danbooru",
                "Danbooru",
                ImageBoards::Danbooru,
                "Rust Imageboard Downloader/0.1.0 (by Danbooru user FerrahWolfeh)",
                "Rust Imageboard Post Extractor/0.1.0 (by Danbooru user FerrahWolfeh)",
                "https://danbooru.donmai.us",
                Some("https://danbooru.donmai.us/posts/"),
                "https://danbooru.donmai.us/posts.json",
                Some("https://danbooru.donmai.us/pools"),
                200,
                Some("https://danbooru.donmai.us/profile.json"),
            ),
        )
    } else if str_eq(name, "e621") {
        Some(
            make_config(
                "e621",
                "e621",
                ImageBoards::E621,
                "Rust Imageboard Downloader/0.1.0 (by e621 user FerrahWolfeh)",
                "Rust Imageboard Post Extractor/0.1.0 (by e621 user FerrahWolfeh)",
                "https://e621.net",
                Some("https://e621.net/posts/"),
                "https://e621.net/posts.json",
                Some("https://e621.net/pools"),
                320,
                Some("https://e621.net/users/"),
            ),
        )
    } else if str_eq(name, "gelbooru") {
        Some(
            make_config(
                "gelbooru",
                "Gelbooru",
                ImageBoards::Gelbooru,
                "Rust Imageboard Downloader/0.1.0 (by gelbooru user FerrahWolfeh)",
                "Rust Imageboard Post Extractor/0.1.0 (by gelbooru user FerrahWolfeh)",
                "https://gelbooru.com",
                Some("https://gelbooru.com/index.php?page=dapi&s=post&q=index&json=1"),
                "https://gelbooru.com/index.php?page=dapi&s=post&q=index&json=1",
                None,
                100,
                None,
            ),
        )
    } else if str_eq(name, "rule34") {
        Some(
            make_config(
                "rule34",
                "Rule34",
                ImageBoards::Gelbooru,
                "Rust Imageboard Downloader/0.1.0",
                "Rust Imageboard Post Extractor/0.1.0",
                "https://rule34.xxx",
                Some("https://api.rule34.xxx/index.php?page=dapi&s=post&q=index&json=1"),
                "https://api.rule34.xxx/index.php?page=dapi&s=post&q=index&json=1",
                None,
                1000,
                None,
            ),
        )
    } else if str_eq(name, "realbooru") {
        Some(
            make_config(
                "realbooru",
                "Realbooru",
                ImageBoards::GelbooruV0_2,
                "Rust Imageboard Downloader/0.1.0",
                "Rust Imageboard Post Extractor/0.1.0",
                "https://realbooru.com",
                Some("http://realbooru.com/index.php?page=dapi&s=post&q=index&json=1"),
                "http://realbooru.com/index.php?page=dapi&s=post&q=index&json=1",
                None,
                1000,
                None,
            ),
        )
    } else if str_eq(name, "konachan") {
        Some(
            make_config(
                "konachan",
                "Konachan",
                ImageBoards::Moebooru,
                "Rust Imageboard Downloader/0.1.0",
                "Rust Imageboard Post Extractor/0.1.0",
                "https://konachan.com",
                None,
                "https://konachan.com/post.json",
                None,
                100,
                None,
            ),
        )
    } else {
        None
    }
}

/// The names of the built-in server configurations.
pub fn default_server_names() -> (r: Vec<String>)
    ensures
        strings_view(r@) == seq![
            "danbooru"@,
            "e621"@,
            "gelbooru"@,
            "rule34"@,
            "realbooru"@,
            "konachan"@,
        ],
        forall|i: int| 0 <= i < r@.len() ==> (#[trigger] default_server_spec(r@[i]@)) is Some,
{
    let mut v: Vec<String> = Vec::new();
    v.push(String::from_str("danbooru"));
    v.push(String::from_str("e621"));
    v.push(String::from_str("gelbooru"));
    v.push(String::from_str("rule34"));
    v.push(String::from_str("realbooru"));
    v.push(String::from_str("konachan"));
    v
}

/// One server section of a server configuration file.
pub struct ServerEntry {
    pub pretty_name: String,
    pub server: String,
    pub base_url: String,
    pub post_url: Option<String>,
    pub post_list_url: Option<String>,
    pub pool_idx_url: Option<String>,
    pub max_post_limit: u16,
    pub auth_url: Option<String>,
    pub image_url: Option<String>,
}

impl ServerConfig {
    /// The configuration of a server read from a configuration file, named
    /// `id`, with the default user agents.
    pub fn from_entry(id: String, data: ServerEntry) -> (r: ServerConfig)
        requires
            board_from_name(data.server@) is Some,
        ensures
            r@ == (ServerConfigView {
                name: id@,
                pretty_name: data.pretty_name@,
                server: board_from_name(data.server@)->Some_0,
                client_user_agent: default_cli_ua(),
                extractor_user_agent: default_ext_ua(),
                base_url: data.base_url@,
                post_url: opt_view(data.post_url),
                post_list_url: opt_view(data.post_list_url),
                pool_idx_url: opt_view(data.pool_idx_url),
                max_post_limit: data.max_post_limit,
                auth_url: opt_view(data.auth_url),
                image_url: opt_view(data.image_url),
            }),
    {
        let server = match ImageBoards::from_name(data.server.as_str()) {
            Some(b) => b,
            None => {
                assert(false);
                ImageBoards::Danbooru
            },
        };
        ServerConfig {
            name: id,
            pretty_name: data.pretty_name,
            server,
            client_user_agent: String::from_str("Rust Imageboard Downloader/0.1.0"),
            extractor_user_agent: String::from_str("Rust Imageboard Post Extractor/0.1.0"),
            base_url: data.base_url,
            post_url: data.post_url,
            post_list_url: data.post_list_url,
            pool_idx_url: data.pool_idx_url,
            max_post_limit: data.max_post_limit,
            auth_url: data.auth_url,
            image_url: data.image_url,
        }
    }

    /// The Danbooru configuration.
    pub fn danbooru() -> (r: ServerConfig)
        ensures
            default_server_spec("danbooru"@) == Some(r@),
    {
        make_config(
            "danbooru",
            "Danbooru",
            ImageBoards::Danbooru,
            "Rust Imageboard Downloader/0.1.0 (by Danbooru user FerrahWolfeh)",
            "Rust Imageboard Post Extractor/0.1.0 (by Danbooru user FerrahWolfeh)",
            "https://danbooru.donmai.us",
            Some("https://danbooru.donmai.us/posts/"),
            "https://danbooru.donmai.us/posts.json",
            Some("https://danbooru.donmai.us/pools"),
            200,
            Some("https://danbooru.donmai.us/profile.json"),
        )
    }

    /// The capabilities of the extractor for this server's imageboard.
    pub fn extractor_features(&self) -> (r: ExtractorFeatures)
        requires
            self.server != ImageBoards::GelbooruV0_2,
        ensures
            r.spec_bits() == match self.server {
                ImageBoards::Danbooru => DanbooruApi::spec_feature_bits(),
                ImageBoards::E621 => E621Api::spec_feature_bits(),
                ImageBoards::Moebooru => MoebooruApi::spec_feature_bits(),
                _ => GelbooruApi::spec_feature_bits(),
            },
    {
        match self.server {
            ImageBoards::Danbooru => DanbooruApi::features(),
            ImageBoards::E621 => E621Api::features(),
            ImageBoards::Moebooru => MoebooruApi::features(),
            _ => GelbooruApi::features(),
        }
    }

    /// The server's name, which is how it displays.
    pub fn to_string(&self) -> (r: String)
        ensures
            r@ == self.name@,
    {
        self.name.clone()
    }

    /// A copy of the configuration.
    pub fn duplicate(&self) -> (r: ServerConfig)
        ensures
            r@ == self@,
    {
        ServerConfig {
            name: self.name.clone(),
            pretty_name: self.pretty_name.clone(),
            server: self.server,
            client_user_agent: self.client_user_agent.clone(),
            extractor_user_agent: self.extractor_user_agent.clone(),
            base_url: self.base_url.clone(),
            post_url: clone_opt(&self.post_url),
            post_list_url: clone_opt(&self.post_list_url),
            pool_idx_url: clone_opt(&self.pool_idx_url),
            max_post_limit: self.max_post_limit,
            auth_url: clone_opt(&self.auth_url),
            image_url: clone_opt(&self.image_url),
        }
    }
}

impl Default for ServerConfig {
    /// The Danbooru configuration.
    fn default() -> (r: ServerConfig)
        ensures
            default_server_spec("danbooru"@) == Some(r@),
    {
        ServerConfig::danbooru()
    }
}

/// A copy of an optional string.
pub fn clone_opt(o: &Option<String>) -> (r: Option<String>)
    ensures
        opt_view(r) == opt_view(*o),
{
    match o {
        Some(s) => Some(s.clone()),
        None => None,
    }
}

} // verus!
