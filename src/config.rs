//! Connection parameters and the address they describe.

use vstd::prelude::*;
use vstd::string::StringExecFns;

verus! {

/// Where and how to connect to the store.
#[derive(Debug, PartialEq, Clone)]
pub struct RedisConfig {
    pub host: String,
    pub port: String,
    pub username: Option<String>,
    pub password: Option<String>,
    pub enable_ssl: bool,
}

/// The mathematical content of a [`RedisConfig`].
pub struct ConfigModel {
    pub host: Seq<char>,
    pub port: Seq<char>,
    pub username: Option<Seq<char>>,
    pub password: Option<Seq<char>>,
    pub enable_ssl: bool,
}

pub open spec fn opt_view(o: Option<String>) -> Option<Seq<char>> {
    match o {
        Some(s) => Some(s@),
        None => None,
    }
}

impl View for RedisConfig {
    type V = ConfigModel;

    open spec fn view(&self) -> ConfigModel {
        ConfigModel {
            host: self.host@,
            port: self.port@,
            username: opt_view(self.username),
            password: opt_view(self.password),
            enable_ssl: self.enable_ssl,
        }
    }
}

/// A credential that is given and not empty.
pub open spec fn given(o: Option<Seq<char>>) -> bool {
    o matches Some(x) && x.len() > 0
}

/// The credentials part of the address: `user:password@` when both are
/// given, `:password@` or `user@` when only one is, nothing when neither
/// is. An empty credential counts as not given.
pub open spec fn auth_part(username: Option<Seq<char>>, password: Option<Seq<char>>) -> Seq<char> {
    if given(username) && given(password) {
        username->0 + ":"@ + password->0 + "@"@
    } else if given(password) {
        ":"@ + password->0 + "@"@
    } else if given(username) {
        username->0 + "@"@
    } else {
        Seq::empty()
    }
}

/// The address of the store: `scheme://credentials host:port`, with the
/// scheme `rediss` when transport security is on and `redis` otherwise.
pub open spec fn url_of(c: ConfigModel) -> Seq<char> {
    (if c.enable_ssl {
        "rediss"@
    } else {
        "redis"@
    }) + "://"@ + auth_part(c.username, c.password) + c.host + ":"@ + c.port
}

/// Whether two optional strings are both absent or hold the same text.
fn same_opt(a: &Option<String>, b: &Option<String>) -> (r: bool)
    ensures
        r == (opt_view(*a) == opt_view(*b)),
{
    match (a, b) {
        (Some(x), Some(y)) => x.eq(y),
        (None, None) => true,
        _ => false,
    }
}

impl RedisConfig {
    /// The address that these parameters describe.
    pub fn to_url(&self) -> (r: String)
        ensures
            r@ == url_of(self@),
    {
        let mut url = if self.enable_ssl {
            String::from_str("rediss")
        } else {
            String::from_str("redis")
        };
        url.append("://");
        let user = match &self.username {
            Some(u) => if !u.as_str().is_empty() {
                Some(u.as_str())
            } else {
                None
            },
            None => None,
        };
        let pass = match &self.password {
            Some(p) => if !p.as_str().is_empty() {
                Some(p.as_str())
            } else {
                None
            },
            None => None,
        };
        match user {
            Some(u) => {
                url.append(u);
            },
            None => {},
        }
        match pass {
            Some(p) => {
                url.append(":");
                url.append(p);
            },
            None => {},
        }
        if user.is_some() || pass.is_some() {
            url.append("@");
        }
        url.append(self.host.as_str());
        url.append(":");
        url.append(self.port.as_str());
        proof {
            let c = self@;
            let scheme = if c.enable_ssl { "rediss"@ } else { "redis"@ };
            assert(url@ =~= scheme + "://"@ + auth_part(c.username, c.password) + c.host + ":"@ + c.port);
        }
        url
    }

    /// Whether two sets of parameters agree in every field.
    pub fn same_as(&self, other: &RedisConfig) -> (r: bool)
        ensures
            r == (self@ == other@),
    {
        self.host == other.host && self.port == other.port && same_opt(&self.username, &other.username)
            && same_opt(&self.password, &other.password) && self.enable_ssl == other.enable_ssl
    }

    /// A copy of these parameters.
    pub fn duplicate(&self) -> (r: RedisConfig)
        ensures
            r@ == self@,
    {
        RedisConfig {
            host: self.host.clone(),
            port: self.port.clone(),
            username: match &self.username {
                Some(u) => Some(u.clone()),
                None => None,
            },
            password: match &self.password {
                Some(p) => Some(p.clone()),
                None => None,
            },
            enable_ssl: self.enable_ssl,
        }
    }
}

} // verus!

verus! {

/// The message for a liveness probe's reply: success on `PONG`, otherwise
/// the reply itself.
pub fn probe_message(response: &str) -> (r: String)
    ensures
        r@ == if response@ == "PONG"@ {
            "Successfully connected to Redis server!"@
        } else {
            "Unexpected response: "@ + response@
        },
{
    if crate::text::text_eq(response, "PONG") {
        String::from_str("Successfully connected to Redis server!")
    } else {
        let mut r = String::from_str("Unexpected response: ");
        r.append(response);
        r
    }
}

} // verus!
