//! User authentication and per-imageboard user configuration.
use vstd::prelude::*;

use crate::extractor_config::{default_server_spec, ServerConfig};
use crate::post::ImageBoards;
use crate::text::{contains_double_slash, has_double_slash, lines_of, lines_seq, strings_view};

verus! {

/// Represents the authentication status of a user for an imageboard.
#[derive(Clone, Copy, Debug, PartialEq, Eq, Structural)]
pub enum AuthState {
    /// The user is successfully authenticated.
    Authenticated,
    /// The user is not authenticated, or authentication has failed.
    NotAuthenticated,
}

impl AuthState {
    /// Whether the state is `Authenticated`.
    pub fn is_auth(&self) -> (r: bool)
        ensures
            r == (*self == AuthState::Authenticated),
    {
        match self {
            AuthState::Authenticated => true,
            AuthState::NotAuthenticated => false,
        }
    }
}

/// Errors of the authentication process and of configuration handling.
#[derive(Debug, Clone, Copy, PartialEq, Eq, Structural)]
pub enum Error {
    /// The login credentials are wrong.
    InvalidLogin,
    /// Connecting to the imageboard or reading its response failed.
    ConnectionError,
    /// The configuration could not be encoded.
    ConfigEncodeError,
    /// The imageboard does not support authentication.
    AuthUnsupported,
}

/// Common user information and the user's blacklisted tags.
#[derive(Debug, Clone)]
pub struct UserData {
    /// The unique numerical ID of the user on the imageboard.
    pub id: u64,
    /// The display name of the user on the imageboard.
    pub name: String,
    /// The tags blacklisted in the user's imageboard profile.
    pub blacklisted_tags: Vec<String>,
}

/// All user configuration for one imageboard: the server, the credentials
/// and the user data fetched on authentication.
#[derive(Debug, Clone)]
pub struct ImageboardConfig {
    imageboard: ServerConfig,
    /// The username for the imageboard account.
    pub username: String,
    /// The API key associated with the username.
    pub api_key: String,
    /// Data fetched from the user's profile after successful authentication.
    pub user_data: UserData,
}

/// What an imageboard answers to an authentication request.
#[derive(Debug)]
pub struct AuthResponse {
    pub success: Option<bool>,
    pub id: Option<u64>,
    pub name: Option<String>,
    pub blacklisted_tags: Option<String>,
}

/// The lines of a blacklist that are not comments (comments hold `//`).
pub open spec fn blacklist_lines(s: Seq<char>) -> Seq<Seq<char>> {
    lines_seq(s).filter(|l: Seq<char>| !has_double_slash(l))
}

fn empty_user_data() -> (r: UserData)
    ensures
        r.id == 0,
        r.name@ == Seq::<char>::empty(),
        r.blacklisted_tags@.len() == 0,
{
    UserData { id: 0, name: String::new(), blacklisted_tags: Vec::new() }
}

impl ImageboardConfig {
    /// The server configuration this user configuration is for.
    pub closed spec fn spec_imageboard(&self) -> ServerConfig {
        self.imageboard
    }

    pub closed spec fn spec_username(&self) -> String {
        self.username
    }

    pub closed spec fn spec_api_key(&self) -> String {
        self.api_key
    }

    pub closed spec fn spec_user_data(&self) -> UserData {
        self.user_data
    }

    /// The Danbooru server with empty credentials and user data.
    pub fn default() -> (r: Self)
        ensures
            default_server_spec("danbooru"@) == Some(r.spec_imageboard()@),
            r.spec_username()@ == Seq::<char>::empty(),
            r.spec_api_key()@ == Seq::<char>::empty(),
            r.spec_user_data().id == 0,
            r.spec_user_data().name@ == Seq::<char>::empty(),
            r.spec_user_data().blacklisted_tags@.len() == 0,
    {
        ImageboardConfig {
            imageboard: ServerConfig::danbooru(),
            username: String::new(),
            api_key: String::new(),
            user_data: empty_user_data(),
        }
    }

    /// A configuration with the given server and credentials and empty user data.
    pub fn new(imageboard: ServerConfig, username: String, api_key: String) -> (r: Self)
        ensures
            r.spec_imageboard() == imageboard,
            r.spec_username() == username,
            r.spec_api_key() == api_key,
            r.spec_user_data().id == 0,
            r.spec_user_data().name@ == Seq::<char>::empty(),
            r.spec_user_data().blacklisted_tags@.len() == 0,
    {
        ImageboardConfig { imageboard, username, api_key, user_data: empty_user_data() }
    }

    /// The server configuration.
    pub fn imageboard(&self) -> (r: &ServerConfig)
        ensures
            *r == self.spec_imageboard(),
    {
        &self.imageboard
    }

    /// The username.
    pub fn username(&self) -> (r: &String)
        ensures
            *r == self.spec_username(),
    {
        &self.username
    }

    /// The API key.
    pub fn api_key(&self) -> (r: &String)
        ensures
            *r == self.spec_api_key(),
    {
        &self.api_key
    }

    /// The tags blacklisted in the user's profile.
    pub fn blacklisted_tags(&self) -> (r: &Vec<String>)
        ensures
            *r == self.spec_user_data().blacklisted_tags,
    {
        &self.user_data.blacklisted_tags
    }

    /// The user-friendly name of the imageboard server.
    pub fn server_pretty_name(&self) -> (r: &str)
        ensures
            r@ == self.spec_imageboard().pretty_name@,
    {
        self.imageboard.pretty_name.as_str()
    }

    /// The URL of the authentication request: Danbooru's is the server's
    /// authentication URL, e621's that URL followed by the username and
    /// `.json`, and other imageboards' the empty string. A server without an
    /// authentication URL does not support authentication.
    pub fn auth_request_url(&self) -> (r: Result<String, Error>)
        ensures
            self.spec_imageboard().auth_url is None ==> r == Err::<String, Error>(
                Error::AuthUnsupported,
            ),
            self.spec_imageboard().auth_url matches Some(u) ==> (r matches Ok(url) && url@ == (
            match self.spec_imageboard().server {
                ImageBoards::Danbooru => u@,
                ImageBoards::E621 => u@ + self.spec_username()@ + ".json"@,
                _ => Seq::<char>::empty(),
            })),
    {
        let base = match &self.imageboard.auth_url {
            Some(u) => u,
            None => {
                return Err(Error::AuthUnsupported);
            },
        };
        match self.imageboard.server {
            ImageBoards::Danbooru => Ok(base.clone()),
            ImageBoards::E621 => {
                let mut url = base.clone();
                url.append(self.username.as_str());
                url.append(".json");
                Ok(url)
            },
            _ => Ok(String::new()),
        }
    }

    /// Takes in the imageboard's answer to authentication. An answer with a
    /// `success` field is a refused login. An answer with an id gives the
    /// user's id and name, and appends to the user's blacklisted tags each
    /// line of the answer's blacklist that is not a comment.
    pub fn apply_auth_response(&mut self, req: AuthResponse) -> (r: Result<(), Error>)
        requires
            req.success is None && req.id is Some ==> req.name is Some && req.blacklisted_tags is Some,
        ensures
            req.success is Some ==> r == Err::<(), Error>(Error::InvalidLogin) && *final(self)
                == *old(self),
            req.success is None && req.id is None ==> r == Ok::<(), Error>(()) && *final(self)
                == *old(self),
            req.success is None && req.id is Some ==> {
                &&& r == Ok::<(), Error>(())
                &&& final(self).spec_imageboard() == old(self).spec_imageboard()
                &&& final(self).spec_username() == old(self).spec_username()
                &&& final(self).spec_api_key() == old(self).spec_api_key()
                &&& final(self).spec_user_data().id == req.id->Some_0
                &&& final(self).spec_user_data().name@ == req.name->Some_0@
                &&& strings_view(final(self).spec_user_data().blacklisted_tags@) == strings_view(
                    old(self).spec_user_data().blacklisted_tags@,
                ) + blacklist_lines(req.blacklisted_tags->Some_0@)
            },
    {
        if req.success.is_some() {
            return Err(Error::InvalidLogin);
        }
        match req.id {
            Some(id) => {
                let tag_list = match req.blacklisted_tags {
                    Some(t) => t,
                    None => {
                        assert(false);
                        String::new()
                    },
                };
                let name = match req.name {
                    Some(n) => n,
                    None => {
                        assert(false);
                        String::new()
                    },
                };
                self.user_data.id = id;
                self.user_data.name = name;
                let lines = lines_of(tag_list.as_str());
                let ghost orig = strings_view(self.user_data.blacklisted_tags@);
                let ghost ls = lines_seq(tag_list@);
                let ghost keep = |l: Seq<char>| !has_double_slash(l);
                let mut i: usize = 0;
                while i < lines.len()
                    invariant
                        0 <= i <= lines.len(),
                        strings_view(lines@) == ls,
                        keep == (|l: Seq<char>| !has_double_slash(l)),
                        strings_view(self.user_data.blacklisted_tags@) == orig + ls.take(
                            i as int,
                        ).filter(keep),
                        self.user_data.id == id,
                        self.user_data.name@ == req.name->Some_0@,
                        self.imageboard == old(self).imageboard,
                        self.username == old(self).username,
                        self.api_key == old(self).api_key,
                    decreases lines.len() - i,
                {
                    let l = &lines[i];
                    proof {
                        assert(ls.take(i + 1) =~= ls.take(i as int).push(ls[i as int]));
                        ls.take(i as int).lemma_filter_push(ls[i as int], keep);
                        assert(l@ == ls[i as int]);
                    }
                    let ghost before = strings_view(self.user_data.blacklisted_tags@);
                    if !contains_double_slash(l.as_str()) {
                        self.user_data.blacklisted_tags.push(l.clone());
                        assert(strings_view(self.user_data.blacklisted_tags@) =~= before.push(
                            l@,
                        ));
                    }
                    i += 1;
                }
                assert(ls.take(lines.len() as int) =~= ls);
                Ok(())
            },
            None => Ok(()),
        }
    }
}

} // verus!
