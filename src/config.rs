use vstd::prelude::*;

verus! {

/// Remote address used when no database URL is configured.
pub open spec fn default_url() -> Seq<char> {
    "http://localhost:8080"@
}

/// Notice given when the auth token is not configured.
pub open spec fn token_notice() -> Seq<char> {
    "Using empty token since TURSO_AUTH_TOKEN was not set"@
}

/// Notice given when the database URL is not configured.
pub open spec fn url_notice() -> Seq<char> {
    "Using http://localhost:8080 TURSO_DATABASE_URL was not set"@
}

/// A URL whose scheme starts with `libsql` gets `https` in its place;
/// any other URL is kept as it is.
pub open spec fn scheme_rewritten(url: Seq<char>) -> Seq<char> {
    if url.len() >= 6 && url.take(6) == "libsql"@ {
        "https"@ + url.skip(6)
    } else {
        url
    }
}

/// The notices, in order, for the settings that fell back to a default.
pub open spec fn config_notices(token_missing: bool, url_missing: bool) -> Seq<Seq<char>> {
    (if token_missing { seq![token_notice()] } else { Seq::empty() }) + (if url_missing {
        seq![url_notice()]
    } else {
        Seq::empty()
    })
}

/// Settings for opening the replica of the remote database.
pub struct Config {
    /// Path of the local replica file.
    pub db_file: String,
    /// Address of the remote primary.
    pub url: String,
    /// Token presented to the remote primary.
    pub auth_token: String,
    /// Notices about settings that fell back to a default.
    pub notices: Vec<String>,
}

/// Why no configuration could be resolved.
#[derive(Debug, PartialEq, Eq, Structural)]
pub enum ConfigError {
    /// The local replica path is not set.
    MissingLocalDb,
}

/// Whether `s` begins with `libsql`.
fn has_libsql_scheme(s: &str) -> (r: bool)
    ensures
        r == (s@.len() >= 6 && s@.take(6) == "libsql"@),
{
    let p = "libsql";
    proof {
        reveal_strlit("libsql");
        assert(p@.len() == 6);
    }
    let n = s.unicode_len();
    if n < 6 {
        return false;
    }
    let mut i: usize = 0;
    while i < 6
        invariant
            i <= 6,
            n == s@.len(),
            n >= 6,
            p@ == "libsql"@,
            p@.len() == 6,
            forall|j: int| 0 <= j < i ==> s@[j] == p@[j],
        decreases 6 - i,
    {
        if s.get_char(i) != p.get_char(i) {
            assert(s@.take(6)[i as int] != p@[i as int]);
            return false;
        }
        i = i + 1;
    }
    assert(s@.take(6) =~= p@);
    true
}

/// Replaces a leading `libsql` scheme of `url` by `https`.
pub fn rewrite_scheme(url: String) -> (r: String)
    ensures
        r@ == scheme_rewritten(url@),
{
    if has_libsql_scheme(url.as_str()) {
        let n = url.as_str().unicode_len();
        let rest = url.as_str().substring_char(6, n);
        let mut r = "https".to_owned();
        r.append(rest);
        proof {
            reveal_strlit("https");
        }
        r
    } else {
        url
    }
}

/// Resolves the settings from the values of the local replica path, the
/// auth token and the database URL, each absent when it is not set.
/// A missing path is an error; a missing token is empty; a missing URL is
/// the local default. The URL's `libsql` scheme becomes `https`.
pub fn connection_config(
    local_db: Option<String>,
    auth_token: Option<String>,
    database_url: Option<String>,
) -> (r: Result<Config, ConfigError>)
    ensures
        r is Err <==> local_db is None,
        r is Err ==> r == Err::<Config, ConfigError>(ConfigError::MissingLocalDb),
        r matches Ok(c) ==> {
            &&& c.db_file@ == local_db.unwrap()@
            &&& c.auth_token@ == match auth_token {
                Some(t) => t@,
                None => Seq::<char>::empty(),
            }
            &&& c.url@ == scheme_rewritten(
                match database_url {
                    Some(u) => u@,
                    None => default_url(),
                },
            )
            &&& c.notices@.map_values(|s: String| s@) == config_notices(
                auth_token is None,
                database_url is None,
            )
        },
{
    let db_file = match local_db {
        Some(p) => p,
        None => {
            return Err(ConfigError::MissingLocalDb);
        },
    };
    let mut notices: Vec<String> = Vec::new();
    let token_missing = auth_token.is_none();
    let url_missing = database_url.is_none();
    let auth_token = match auth_token {
        Some(t) => t,
        None => {
            notices.push("Using empty token since TURSO_AUTH_TOKEN was not set".to_owned());
            String::new()
        },
    };
    let raw_url = match database_url {
        Some(u) => u,
        None => {
            notices.push("Using http://localhost:8080 TURSO_DATABASE_URL was not set".to_owned());
            "http://localhost:8080".to_owned()
        },
    };
    let url = rewrite_scheme(raw_url);
    assert(notices@.map_values(|s: String| s@) =~= config_notices(token_missing, url_missing));
    Ok(Config { db_file, url, auth_token, notices })
}

} // verus!
