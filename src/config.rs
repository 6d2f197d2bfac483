use vstd::prelude::*;

use vstd::utf8::encode_utf8;

use crate::search::lexer::{skip_space, space};

verus! {

/// Where the CORS origin comes from when no setting gives one.
pub const DEFAULT_ALLOWED_ORIGIN: &'static str = "http://localhost:3000";

/// The port the server listens on when no setting gives one.
pub const DEFAULT_HOST_PORT: &'static str = "8080";

/// The length of the random signing key made when no setting gives one.
pub const JWT_SECRET_LEN: usize = 32;

/// The service's configuration, built once at start-up and passed by
/// reference to whatever needs it.
pub struct Config {
    pub database_url: String,
    pub toshi_url: String,
    pub toshi_index: String,
    pub host_port: String,
    pub allowed_origin: String,
    pub jwt_secret: Vec<u8>,
}

/// The raw settings, as read from the environment; `None` where a variable
/// is not set.
pub struct Settings {
    pub database_url: Option<String>,
    pub toshi_url: Option<String>,
    pub toshi_index: Option<String>,
    pub allowed_origin: Option<String>,
    pub host_port: Option<String>,
    pub jwt_secret: Option<String>,
}

/// A setting counts only when it is set to a non-empty value.
pub open spec fn given(v: Option<String>) -> bool {
    v matches Some(s) && s@.len() > 0
}

/// The value of a setting, or `default` where it does not count.
pub open spec fn value_or(v: Option<String>, default: Seq<char>) -> Seq<char> {
    if given(v) {
        v->0@
    } else {
        default
    }
}

/// The first position from which only white space is left before `j`.
pub open spec fn trim_end(s: Seq<char>, j: int) -> int
    decreases j,
{
    if 0 < j <= s.len() && space(s[j - 1]) {
        trim_end(s, j - 1)
    } else {
        j
    }
}

/// `s` without leading and trailing white space.
pub open spec fn trimmed(s: Seq<char>) -> Seq<char> {
    let i = skip_space(s, 0);
    let j = trim_end(s, s.len() as int);
    if i < j {
        s.subrange(i, j)
    } else {
        Seq::empty()
    }
}

/// Relies on `str::trim`: it removes leading and trailing characters with
/// the Unicode `White_Space` property.
#[verifier::external_body]
fn trim(s: &str) -> (r: &str)
    ensures
        r@ == trimmed(s@),
{
    s.trim()
}

/// A setting's value where it counts.
fn setting(v: Option<String>) -> (r: Option<String>)
    ensures
        given(v) ==> (r matches Some(s) && s@ == v->0@),
        !given(v) ==> r is None,
{
    match v {
        Some(s) => {
            if s.as_str().is_empty() {
                None
            } else {
                Some(s)
            }
        },
        None => None,
    }
}

fn setting_or(v: Option<String>, default: &str) -> (r: String)
    ensures
        r@ == value_or(v, default@),
{
    match setting(v) {
        Some(s) => s,
        None => String::from_str(default),
    }
}

impl Config {
    /// Builds the configuration from the raw settings. The database URL,
    /// the search engine's address and its index are required: the first
    /// of them that does not count is returned as the error. The others
    /// fall back to their defaults, the signing key to `random_key`.
    pub fn from_settings(settings: Settings, random_key: Vec<u8>) -> (r: Result<Config, String>)
        ensures
            !given(settings.database_url) ==> (r matches Err(name) && name@ == "DATABASE_URL"@),
            given(settings.database_url) && !given(settings.toshi_url) ==> (r matches Err(name)
                && name@ == "TOSHI_URL"@),
            given(settings.database_url) && given(settings.toshi_url) && !given(
                settings.toshi_index,
            ) ==> (r matches Err(name) && name@ == "TOSHI_INDEX"@),
            given(settings.database_url) && given(settings.toshi_url) && given(settings.toshi_index)
                ==> (r matches Ok(c) && c.database_url@ == settings.database_url->0@
                && c.toshi_url@ == settings.toshi_url->0@ && c.toshi_index@
                == settings.toshi_index->0@ && c.allowed_origin@ == value_or(
                settings.allowed_origin,
                DEFAULT_ALLOWED_ORIGIN@,
            ) && c.host_port@ == value_or(settings.host_port, DEFAULT_HOST_PORT@) && c.jwt_secret@
                == if given(settings.jwt_secret) {
                encode_utf8(settings.jwt_secret->0@)
            } else {
                random_key@
            }),
    {
        let database_url = match setting(settings.database_url) {
            Some(s) => s,
            None => {
                return Err(String::from_str("DATABASE_URL"));
            },
        };
        let toshi_url = match setting(settings.toshi_url) {
            Some(s) => s,
            None => {
                return Err(String::from_str("TOSHI_URL"));
            },
        };
        let toshi_index = match setting(settings.toshi_index) {
            Some(s) => s,
            None => {
                return Err(String::from_str("TOSHI_INDEX"));
            },
        };
        let jwt_secret = match setting(settings.jwt_secret) {
            Some(s) => s.as_str().as_bytes_vec(),
            None => random_key,
        };
        Ok(
            Config {
                database_url,
                toshi_url,
                toshi_index,
                host_port: setting_or(settings.host_port, DEFAULT_HOST_PORT),
                allowed_origin: setting_or(settings.allowed_origin, DEFAULT_ALLOWED_ORIGIN),
                jwt_secret,
            },
        )
    }

    /// The search engine's endpoint for the index: `http://`, the trimmed
    /// address, and the trimmed path `/<index>`.
    pub fn index_endpoint(&self) -> (r: String)
        ensures
            r@ == "http://"@ + trimmed(self.toshi_url@) + trimmed("/"@ + self.toshi_index@),
    {
        let path = String::from_str("/").concat(self.toshi_index.as_str());
        let mut r = String::from_str("http://");
        r.append(trim(self.toshi_url.as_str()));
        r.append(trim(path.as_str()));
        r
    }

    /// Where documents are inserted.
    pub fn insert_doc_endpoint(&self) -> (r: String)
        ensures
            r@ == "http://"@ + trimmed(self.toshi_url@) + trimmed("/"@ + self.toshi_index@),
    {
        self.index_endpoint()
    }

    /// Where queries are sent.
    pub fn query_doc_endpoint(&self) -> (r: String)
        ensures
            r@ == "http://"@ + trimmed(self.toshi_url@) + trimmed("/"@ + self.toshi_index@),
    {
        self.index_endpoint()
    }
}

} // verus!
