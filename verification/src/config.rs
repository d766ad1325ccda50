//! The service configuration, validated from the values of its environment variables.
use vstd::prelude::*;

use crate::numbers::{parse_u64, parse_u64_spec};
use crate::text::{
    chars_of, eq_ignore_case, eq_ignore_case_spec, is_blank, lower_spec, owned, split_bounds,
    split_spec, string_of, trim, trim_bounds, trim_spec,
};

verus! {

pub const DEFAULT_BIND_ADDR: &'static str = "127.0.0.1:3000";
pub const DEFAULT_STATE_PATH: &'static str = "state/presence.json";
pub const DEFAULT_STALE_AFTER_SECS: u64 = 120;
pub const DEFAULT_UNAVAILABLE_AFTER_SECS: u64 = 600;
pub const DEFAULT_GITHUB_USERNAME: &'static str = "Herzchens";
pub const DEFAULT_GITHUB_STATE_PATH: &'static str = "state/github.json";
pub const DEFAULT_GITHUB_POLL_SECS: u64 = 15;
pub const DEFAULT_GITHUB_STALE_AFTER_SECS: u64 = 21_600;
pub const MIN_GITHUB_POLL_SECS: u64 = 15;
pub const DEFAULT_SPOTIFY_POLL_SECS: u64 = 5;
pub const DEFAULT_SPOTIFY_REFRESH_TOKEN_PATH: &'static str = "state/spotify-refresh-token";
pub const MIN_SPOTIFY_POLL_SECS: u64 = 5;

/// Why the configuration was refused; the payload names the variable.
#[derive(Clone, Copy, Debug, PartialEq, Eq)]
pub enum ConfigError {
    EmptyValue(&'static str),
    GitHubPollTooFrequent,
    IncompleteSpotifyConfig,
    InvalidGitHubStaleWindow,
    InvalidSnowflake(&'static str),
    InvalidSocketAddress(&'static str),
    InvalidSeconds(&'static str),
    InvalidStaleWindow,
    Missing(&'static str),
    NotUtf8(&'static str),
    SpotifyPollTooFrequent,
}

/// The message that reports an error.
pub open spec fn config_message_spec(e: ConfigError) -> Seq<char> {
    match e {
        ConfigError::EmptyValue(name) => "environment variable "@ + name@ + " must not be empty"@,
        ConfigError::GitHubPollTooFrequent => "GITHUB_POLL_SECS must be at least 15 seconds"@,
        ConfigError::IncompleteSpotifyConfig =>
            "SPOTIFY_CLIENT_ID, SPOTIFY_CLIENT_SECRET, and SPOTIFY_REFRESH_TOKEN must be configured together"@,
        ConfigError::InvalidGitHubStaleWindow =>
            "GITHUB_STALE_AFTER_SECS must be greater than GITHUB_POLL_SECS"@,
        ConfigError::InvalidSnowflake(name) => "environment variable "@ + name@
            + " must be a non-zero Discord snowflake"@,
        ConfigError::InvalidSocketAddress(name) => "environment variable "@ + name@
            + " must be a valid socket address"@,
        ConfigError::InvalidSeconds(name) => "environment variable "@ + name@
            + " must be a positive integer number of seconds"@,
        ConfigError::InvalidStaleWindow =>
            "PROFILE_STALE_AFTER_SECS must be lower than PROFILE_UNAVAILABLE_AFTER_SECS"@,
        ConfigError::Missing(name) => "required environment variable "@ + name@ + " is missing"@,
        ConfigError::NotUtf8(name) => "environment variable "@ + name@ + " must be valid UTF-8"@,
        ConfigError::SpotifyPollTooFrequent => "SPOTIFY_POLL_SECS must be at least 5 seconds"@,
    }
}

impl ConfigError {
    /// The message that reports the error.
    pub fn message(&self) -> (r: String)
        ensures
            r@ == config_message_spec(*self),
    {
        match self {
            ConfigError::EmptyValue(name) => sentence("environment variable ", name, " must not be empty"),
            ConfigError::GitHubPollTooFrequent => owned("GITHUB_POLL_SECS must be at least 15 seconds"),
            ConfigError::IncompleteSpotifyConfig => owned(
                "SPOTIFY_CLIENT_ID, SPOTIFY_CLIENT_SECRET, and SPOTIFY_REFRESH_TOKEN must be configured together",
            ),
            ConfigError::InvalidGitHubStaleWindow => owned(
                "GITHUB_STALE_AFTER_SECS must be greater than GITHUB_POLL_SECS",
            ),
            ConfigError::InvalidSnowflake(name) => sentence(
                "environment variable ",
                name,
                " must be a non-zero Discord snowflake",
            ),
            ConfigError::InvalidSocketAddress(name) => sentence(
                "environment variable ",
                name,
                " must be a valid socket address",
            ),
            ConfigError::InvalidSeconds(name) => sentence(
                "environment variable ",
                name,
                " must be a positive integer number of seconds",
            ),
            ConfigError::InvalidStaleWindow => owned(
                "PROFILE_STALE_AFTER_SECS must be lower than PROFILE_UNAVAILABLE_AFTER_SECS",
            ),
            ConfigError::Missing(name) => sentence("required environment variable ", name, " is missing"),
            ConfigError::NotUtf8(name) => sentence("environment variable ", name, " must be valid UTF-8"),
            ConfigError::SpotifyPollTooFrequent => owned("SPOTIFY_POLL_SECS must be at least 5 seconds"),
        }
    }
}

fn sentence(head: &str, name: &str, tail: &str) -> (r: String)
    ensures
        r@ == head@ + name@ + tail@,
{
    let mut r = owned(head);
    crate::text::push_str(&mut r, name);
    crate::text::push_str(&mut r, tail);
    r
}

/// A positive number of seconds.
pub open spec fn seconds_spec(name: &'static str, value: Seq<char>) -> Result<u64, ConfigError> {
    match parse_u64_spec(value) {
        Some(n) => if n == 0 {
            Err(ConfigError::InvalidSeconds(name))
        } else {
            Ok(n)
        },
        None => Err(ConfigError::InvalidSeconds(name)),
    }
}

/// A positive number of seconds.
pub fn parse_seconds(name: &'static str, value: &str) -> (r: Result<u64, ConfigError>)
    ensures
        r == seconds_spec(name, value@),
{
    match parse_u64(value) {
        Some(n) => if n == 0 {
            Err(ConfigError::InvalidSeconds(name))
        } else {
            Ok(n)
        },
        None => Err(ConfigError::InvalidSeconds(name)),
    }
}

/// A non-zero Discord snowflake.
pub open spec fn snowflake_spec(name: &'static str, value: Seq<char>) -> Result<u64, ConfigError> {
    match parse_u64_spec(value) {
        Some(n) => if n == 0 {
            Err(ConfigError::InvalidSnowflake(name))
        } else {
            Ok(n)
        },
        None => Err(ConfigError::InvalidSnowflake(name)),
    }
}

/// A non-zero Discord snowflake.
pub fn parse_snowflake(name: &'static str, value: String) -> (r: Result<u64, ConfigError>)
    ensures
        r == snowflake_spec(name, value@),
{
    match parse_u64(value.as_str()) {
        Some(n) => if n == 0 {
            Err(ConfigError::InvalidSnowflake(name))
        } else {
            Ok(n)
        },
        None => Err(ConfigError::InvalidSnowflake(name)),
    }
}

/// The trimmed value, which must not be empty.
pub fn non_empty_owned(name: &'static str, value: String) -> (r: Result<String, ConfigError>)
    ensures
        trim_spec(value@).len() == 0 ==> r == Err::<String, ConfigError>(
            ConfigError::EmptyValue(name),
        ),
        trim_spec(value@).len() > 0 ==> (r matches Ok(v) && v@ == trim_spec(value@)),
{
    let t = trim(value.as_str());
    if t.as_str().is_empty() {
        Err(ConfigError::EmptyValue(name))
    } else {
        Ok(t)
    }
}

/// The entries of a comma-separated list: trimmed, without empty ones, each kept only at
/// its first appearance when compared ignoring ASCII case.
pub open spec fn csv_spec(value: Seq<char>) -> Seq<Seq<char>> {
    distinct_entries(split_spec(value, ',').map_values(|p: Seq<char>| trim_spec(p)))
}

/// The non-empty entries, each kept only at its first appearance ignoring ASCII case.
pub open spec fn distinct_entries(entries: Seq<Seq<char>>) -> Seq<Seq<char>>
    decreases entries.len(),
{
    if entries.len() == 0 {
        Seq::empty()
    } else {
        let kept = distinct_entries(entries.drop_last());
        let e = entries.last();
        if e.len() == 0 || exists|k: int|
            0 <= k < kept.len() && eq_ignore_case_spec(#[trigger] kept[k], e) {
            kept
        } else {
            kept.push(e)
        }
    }
}

/// The entries of a comma-separated list: trimmed, without empty ones, each kept only at
/// its first appearance when compared ignoring ASCII case.
pub fn parse_csv_list(value: &str) -> (r: Vec<String>)
    ensures
        r.deep_view() == csv_spec(value@),
{
    let chars = chars_of(value);
    let parts = split_bounds(&chars, ',');
    let ghost pieces = split_spec(value@, ',').map_values(|p: Seq<char>| trim_spec(p));
    let mut kept: Vec<String> = Vec::new();
    let mut i: usize = 0;
    while i < parts.len()
        invariant
            i <= parts@.len(),
            chars@ == value@,
            parts@.len() == split_spec(value@, ',').len(),
            pieces == split_spec(value@, ',').map_values(|p: Seq<char>| trim_spec(p)),
            forall|k: int|
                0 <= k < parts@.len() ==> (#[trigger] parts@[k]).0 <= parts@[k].1 <= chars@.len()
                    && chars@.subrange(parts@[k].0 as int, parts@[k].1 as int) == split_spec(
                    value@,
                    ',',
                )[k],
            kept.deep_view() == distinct_entries(pieces.take(i as int)),
        decreases parts.len() - i,
    {
        let (from, to) = parts[i];
        let (a, b) = trim_bounds(&chars, from, to);
        let entry = string_of(&chars, a, b);
        let ghost kv = kept.deep_view();
        proof {
            assert(pieces.take(i + 1).drop_last() == pieces.take(i as int));
            assert(pieces.take(i + 1).last() == pieces[i as int]);
            assert(entry@ == pieces[i as int]);
        }
        if b > a {
            let mut seen = false;
            let mut k: usize = 0;
            while k < kept.len()
                invariant
                    k <= kept@.len(),
                    kv == kept.deep_view(),
                    seen == exists|m: int| 0 <= m < k && eq_ignore_case_spec(#[trigger] kv[m], entry@),
                decreases kept.len() - k,
            {
                proof {
                    assert(kv[k as int] == kept@[k as int]@);
                }
                if eq_ignore_case(kept[k].as_str(), entry.as_str()) {
                    seen = true;
                }
                k = k + 1;
            }
            if !seen {
                kept.push(entry);
                proof {
                    assert(kept.deep_view() =~= kv.push(pieces[i as int]));
                }
            }
        }
        i = i + 1;
    }
    proof {
        assert(pieces.take(parts@.len() as int) == pieces);
    }
    kept
}

/// The value of an environment variable as the process sees it.
#[derive(Debug, PartialEq, Eq)]
pub enum EnvValue {
    Unset,
    Text(String),
    NotUnicode,
}

/// The value of an `EnvValue`.
pub enum EnvModel {
    Unset,
    Text(Seq<char>),
    NotUnicode,
}

impl DeepView for EnvValue {
    type V = EnvModel;

    open spec fn deep_view(&self) -> EnvModel {
        match self {
            EnvValue::Unset => EnvModel::Unset,
            EnvValue::Text(s) => EnvModel::Text(s@),
            EnvValue::NotUnicode => EnvModel::NotUnicode,
        }
    }
}

/// A required variable: missing or not Unicode is an error.
pub open spec fn required_spec(name: &'static str, v: EnvModel) -> Result<Seq<char>, ConfigError> {
    match v {
        EnvModel::Unset => Err(ConfigError::Missing(name)),
        EnvModel::NotUnicode => Err(ConfigError::NotUtf8(name)),
        EnvModel::Text(s) => Ok(s),
    }
}

/// An optional variable: not Unicode is an error.
pub open spec fn optional_spec(name: &'static str, v: EnvModel) -> Result<Option<Seq<char>>, ConfigError> {
    match v {
        EnvModel::Unset => Ok(None),
        EnvModel::NotUnicode => Err(ConfigError::NotUtf8(name)),
        EnvModel::Text(s) => Ok(Some(s)),
    }
}

/// An optional path: its value where it is not blank, else the default.
pub open spec fn path_spec(name: &'static str, v: EnvModel, default: Seq<char>) -> Result<Seq<char>, ConfigError> {
    match optional_spec(name, v) {
        Err(e) => Err(e),
        Ok(None) => Ok(default),
        Ok(Some(s)) => if trim_spec(s).len() == 0 {
            Err(ConfigError::EmptyValue(name))
        } else {
            Ok(s)
        },
    }
}

/// An optional positive number of seconds, with a default.
pub open spec fn optional_seconds_spec(name: &'static str, v: EnvModel, default: u64) -> Result<u64, ConfigError> {
    match optional_spec(name, v) {
        Err(e) => Err(e),
        Ok(None) => Ok(default),
        Ok(Some(s)) => seconds_spec(name, s),
    }
}

fn required(name: &'static str, v: &EnvValue) -> (r: Result<String, ConfigError>)
    ensures
        match required_spec(name, v.deep_view()) {
            Ok(s) => (r matches Ok(x) && x@ == s),
            Err(e) => r == Err::<String, ConfigError>(e),
        },
{
    match v {
        EnvValue::Unset => Err(ConfigError::Missing(name)),
        EnvValue::NotUnicode => Err(ConfigError::NotUtf8(name)),
        EnvValue::Text(s) => Ok(owned(s.as_str())),
    }
}

fn optional_path(name: &'static str, v: &EnvValue, default: &str) -> (r: Result<String, ConfigError>)
    ensures
        match path_spec(name, v.deep_view(), default@) {
            Ok(s) => (r matches Ok(x) && x@ == s),
            Err(e) => r == Err::<String, ConfigError>(e),
        },
{
    match v {
        EnvValue::Unset => Ok(owned(default)),
        EnvValue::NotUnicode => Err(ConfigError::NotUtf8(name)),
        EnvValue::Text(s) => if is_blank(s.as_str()) {
            Err(ConfigError::EmptyValue(name))
        } else {
            Ok(owned(s.as_str()))
        },
    }
}

fn optional_seconds(name: &'static str, v: &EnvValue, default: u64) -> (r: Result<u64, ConfigError>)
    ensures
        r == optional_seconds_spec(name, v.deep_view(), default),
{
    match v {
        EnvValue::Unset => Ok(default),
        EnvValue::NotUnicode => Err(ConfigError::NotUtf8(name)),
        EnvValue::Text(s) => parse_seconds(name, s.as_str()),
    }
}

/// The GitHub collector's settings.
#[derive(Debug, PartialEq, Eq)]
pub struct GitHubConfig {
    pub featured_repositories: Vec<String>,
    pub poll_interval_secs: u64,
    pub stale_after_secs: u64,
    pub state_path: String,
    pub token: Option<String>,
    pub username: String,
}

/// The value of a `GitHubConfig`.
pub struct GitHubConfigModel {
    pub featured_repositories: Seq<Seq<char>>,
    pub poll_interval_secs: u64,
    pub stale_after_secs: u64,
    pub state_path: Seq<char>,
    pub token: Option<Seq<char>>,
    pub username: Seq<char>,
}

impl DeepView for GitHubConfig {
    type V = GitHubConfigModel;

    open spec fn deep_view(&self) -> GitHubConfigModel {
        GitHubConfigModel {
            featured_repositories: self.featured_repositories.deep_view(),
            poll_interval_secs: self.poll_interval_secs,
            stale_after_secs: self.stale_after_secs,
            state_path: self.state_path@,
            token: self.token.deep_view(),
            username: self.username@,
        }
    }
}

/// The native Spotify collector's settings.
#[derive(Debug, PartialEq, Eq)]
pub struct SpotifyConfig {
    pub client_id: String,
    pub client_secret: String,
    pub poll_interval_secs: u64,
    pub refresh_token: String,
    pub refresh_token_path: String,
}

/// The value of a `SpotifyConfig`.
pub struct SpotifyConfigModel {
    pub client_id: Seq<char>,
    pub client_secret: Seq<char>,
    pub poll_interval_secs: u64,
    pub refresh_token: Seq<char>,
    pub refresh_token_path: Seq<char>,
}

impl DeepView for SpotifyConfig {
    type V = SpotifyConfigModel;

    open spec fn deep_view(&self) -> SpotifyConfigModel {
        SpotifyConfigModel {
            client_id: self.client_id@,
            client_secret: self.client_secret@,
            poll_interval_secs: self.poll_interval_secs,
            refresh_token: self.refresh_token@,
            refresh_token_path: self.refresh_token_path@,
        }
    }
}

/// The variables the GitHub settings are read from.
pub struct GitHubEnv {
    pub username: EnvValue,
    pub token: EnvValue,
    pub featured_repos: EnvValue,
    pub state_path: EnvValue,
    pub poll_secs: EnvValue,
    pub stale_after_secs: EnvValue,
}

/// The GitHub settings: the username (trimmed, default `Herzchens`), the token where it
/// is not blank, the featured repositories, the state path, and a poll interval of at
/// least 15 seconds below the staleness window.
pub open spec fn github_spec(env: GitHubEnv) -> Result<GitHubConfigModel, ConfigError> {
    let username = match optional_spec("GITHUB_USERNAME", env.username.deep_view()) {
        Err(e) => Err(e),
        Ok(None) => Ok(DEFAULT_GITHUB_USERNAME@),
        Ok(Some(s)) => if trim_spec(s).len() == 0 {
            Err(ConfigError::EmptyValue("GITHUB_USERNAME"))
        } else {
            Ok(trim_spec(s))
        },
    };
    let token = optional_spec("GITHUB_TOKEN", env.token.deep_view());
    let featured = optional_spec("GITHUB_FEATURED_REPOS", env.featured_repos.deep_view());
    let state_path = path_spec("GITHUB_STATE_PATH", env.state_path.deep_view(), DEFAULT_GITHUB_STATE_PATH@);
    let poll = optional_seconds_spec("GITHUB_POLL_SECS", env.poll_secs.deep_view(), DEFAULT_GITHUB_POLL_SECS);
    let stale = optional_seconds_spec(
        "GITHUB_STALE_AFTER_SECS",
        env.stale_after_secs.deep_view(),
        DEFAULT_GITHUB_STALE_AFTER_SECS,
    );
    if username is Err {
        Err(username->Err_0)
    } else if token is Err {
        Err(token->Err_0)
    } else if featured is Err {
        Err(featured->Err_0)
    } else if state_path is Err {
        Err(state_path->Err_0)
    } else if poll is Err {
        Err(poll->Err_0)
    } else if poll->Ok_0 < MIN_GITHUB_POLL_SECS {
        Err(ConfigError::GitHubPollTooFrequent)
    } else if stale is Err {
        Err(stale->Err_0)
    } else if stale->Ok_0 <= poll->Ok_0 {
        Err(ConfigError::InvalidGitHubStaleWindow)
    } else {
        Ok(
            GitHubConfigModel {
                featured_repositories: match featured->Ok_0 {
                    Some(v) => csv_spec(v),
                    None => Seq::empty(),
                },
                poll_interval_secs: poll->Ok_0,
                stale_after_secs: stale->Ok_0,
                state_path: state_path->Ok_0,
                token: match token->Ok_0 {
                    Some(t) => if trim_spec(t).len() > 0 {
                        Some(trim_spec(t))
                    } else {
                        None
                    },
                    None => None,
                },
                username: username->Ok_0,
            },
        )
    }
}

/// The GitHub settings.
pub fn github_config(env: &GitHubEnv) -> (r: Result<GitHubConfig, ConfigError>)
    ensures
        match github_spec(*env) {
            Ok(m) => (r matches Ok(c) && c.deep_view() == m),
            Err(e) => r == Err::<GitHubConfig, ConfigError>(e),
        },
{
    let username = match &env.username {
        EnvValue::Unset => owned(DEFAULT_GITHUB_USERNAME),
        EnvValue::NotUnicode => return Err(ConfigError::NotUtf8("GITHUB_USERNAME")),
        EnvValue::Text(s) => match non_empty_owned("GITHUB_USERNAME", owned(s.as_str())) {
            Ok(v) => v,
            Err(e) => return Err(e),
        },
    };
    let token = match &env.token {
        EnvValue::Unset => None,
        EnvValue::NotUnicode => return Err(ConfigError::NotUtf8("GITHUB_TOKEN")),
        EnvValue::Text(s) => {
            let t = trim(s.as_str());
            if t.as_str().is_empty() {
                None
            } else {
                Some(t)
            }
        },
    };
    let featured_repositories = match &env.featured_repos {
        EnvValue::Unset => Vec::new(),
        EnvValue::NotUnicode => return Err(ConfigError::NotUtf8("GITHUB_FEATURED_REPOS")),
        EnvValue::Text(s) => parse_csv_list(s.as_str()),
    };
    let state_path = match optional_path("GITHUB_STATE_PATH", &env.state_path, DEFAULT_GITHUB_STATE_PATH) {
        Ok(v) => v,
        Err(e) => return Err(e),
    };
    let poll = match optional_seconds("GITHUB_POLL_SECS", &env.poll_secs, DEFAULT_GITHUB_POLL_SECS) {
        Ok(v) => v,
        Err(e) => return Err(e),
    };
    if poll < MIN_GITHUB_POLL_SECS {
        return Err(ConfigError::GitHubPollTooFrequent);
    }
    let stale = match optional_seconds(
        "GITHUB_STALE_AFTER_SECS",
        &env.stale_after_secs,
        DEFAULT_GITHUB_STALE_AFTER_SECS,
    ) {
        Ok(v) => v,
        Err(e) => return Err(e),
    };
    if stale <= poll {
        return Err(ConfigError::InvalidGitHubStaleWindow);
    }
    proof {
        assert(featured_repositories.deep_view() == match optional_spec(
            "GITHUB_FEATURED_REPOS",
            env.featured_repos.deep_view(),
        )->Ok_0 {
            Some(v) => csv_spec(v),
            None => Seq::<Seq<char>>::empty(),
        });
    }
    Ok(
        GitHubConfig {
            featured_repositories,
            poll_interval_secs: poll,
            stale_after_secs: stale,
            state_path,
            token,
            username,
        },
    )
}

/// The variables the native Spotify settings are read from.
pub struct SpotifyEnv {
    pub client_id: EnvValue,
    pub client_secret: EnvValue,
    pub refresh_token: EnvValue,
    pub poll_secs: EnvValue,
    pub refresh_token_path: EnvValue,
}

/// The native Spotify settings: none where no credential is set; all three credentials
/// (trimmed, not blank) where any is; a poll interval of at least 5 seconds.
pub open spec fn spotify_spec(env: SpotifyEnv) -> Result<Option<SpotifyConfigModel>, ConfigError> {
    let id = optional_spec("SPOTIFY_CLIENT_ID", env.client_id.deep_view());
    let secret = optional_spec("SPOTIFY_CLIENT_SECRET", env.client_secret.deep_view());
    let token = optional_spec("SPOTIFY_REFRESH_TOKEN", env.refresh_token.deep_view());
    if id is Err {
        Err(id->Err_0)
    } else if secret is Err {
        Err(secret->Err_0)
    } else if token is Err {
        Err(token->Err_0)
    } else if id->Ok_0 is None && secret->Ok_0 is None && token->Ok_0 is None {
        Ok(None)
    } else if id->Ok_0 is None || secret->Ok_0 is None || token->Ok_0 is None {
        Err(ConfigError::IncompleteSpotifyConfig)
    } else if trim_spec(id->Ok_0->0).len() == 0 {
        Err(ConfigError::EmptyValue("SPOTIFY_CLIENT_ID"))
    } else if trim_spec(secret->Ok_0->0).len() == 0 {
        Err(ConfigError::EmptyValue("SPOTIFY_CLIENT_SECRET"))
    } else if trim_spec(token->Ok_0->0).len() == 0 {
        Err(ConfigError::EmptyValue("SPOTIFY_REFRESH_TOKEN"))
    } else {
        let poll = optional_seconds_spec("SPOTIFY_POLL_SECS", env.poll_secs.deep_view(), DEFAULT_SPOTIFY_POLL_SECS);
        let path = path_spec(
            "SPOTIFY_REFRESH_TOKEN_PATH",
            env.refresh_token_path.deep_view(),
            DEFAULT_SPOTIFY_REFRESH_TOKEN_PATH@,
        );
        if poll is Err {
            Err(poll->Err_0)
        } else if poll->Ok_0 < MIN_SPOTIFY_POLL_SECS {
            Err(ConfigError::SpotifyPollTooFrequent)
        } else if path is Err {
            Err(path->Err_0)
        } else {
            Ok(
                Some(
                    SpotifyConfigModel {
                        client_id: trim_spec(id->Ok_0->0),
                        client_secret: trim_spec(secret->Ok_0->0),
                        poll_interval_secs: poll->Ok_0,
                        refresh_token: trim_spec(token->Ok_0->0),
                        refresh_token_path: path->Ok_0,
                    },
                ),
            )
        }
    }
}

fn optional_text(name: &'static str, v: &EnvValue) -> (r: Result<Option<String>, ConfigError>)
    ensures
        match optional_spec(name, v.deep_view()) {
            Ok(o) => (r matches Ok(x) && x.deep_view() == o),
            Err(e) => r == Err::<Option<String>, ConfigError>(e),
        },
{
    match v {
        EnvValue::Unset => Ok(None),
        EnvValue::NotUnicode => Err(ConfigError::NotUtf8(name)),
        EnvValue::Text(s) => Ok(Some(owned(s.as_str()))),
    }
}

/// The native Spotify settings.
pub fn spotify_config(env: &SpotifyEnv) -> (r: Result<Option<SpotifyConfig>, ConfigError>)
    ensures
        match spotify_spec(*env) {
            Ok(m) => (r matches Ok(c) && c.deep_view() == m),
            Err(e) => r == Err::<Option<SpotifyConfig>, ConfigError>(e),
        },
{
    let id = match optional_text("SPOTIFY_CLIENT_ID", &env.client_id) {
        Ok(v) => v,
        Err(e) => return Err(e),
    };
    let secret = match optional_text("SPOTIFY_CLIENT_SECRET", &env.client_secret) {
        Ok(v) => v,
        Err(e) => return Err(e),
    };
    let token = match optional_text("SPOTIFY_REFRESH_TOKEN", &env.refresh_token) {
        Ok(v) => v,
        Err(e) => return Err(e),
    };
    if id.is_none() && secret.is_none() && token.is_none() {
        return Ok(None);
    }
    let (id, secret, token) = match (id, secret, token) {
        (Some(a), Some(b), Some(c)) => (a, b, c),
        _ => return Err(ConfigError::IncompleteSpotifyConfig),
    };
    let client_id = match non_empty_owned("SPOTIFY_CLIENT_ID", id) {
        Ok(v) => v,
        Err(e) => return Err(e),
    };
    let client_secret = match non_empty_owned("SPOTIFY_CLIENT_SECRET", secret) {
        Ok(v) => v,
        Err(e) => return Err(e),
    };
    let refresh_token = match non_empty_owned("SPOTIFY_REFRESH_TOKEN", token) {
        Ok(v) => v,
        Err(e) => return Err(e),
    };
    let poll = match optional_seconds("SPOTIFY_POLL_SECS", &env.poll_secs, DEFAULT_SPOTIFY_POLL_SECS) {
        Ok(v) => v,
        Err(e) => return Err(e),
    };
    if poll < MIN_SPOTIFY_POLL_SECS {
        return Err(ConfigError::SpotifyPollTooFrequent);
    }
    let refresh_token_path = match optional_path(
        "SPOTIFY_REFRESH_TOKEN_PATH",
        &env.refresh_token_path,
        DEFAULT_SPOTIFY_REFRESH_TOKEN_PATH,
    ) {
        Ok(v) => v,
        Err(e) => return Err(e),
    };
    Ok(
        Some(
            SpotifyConfig {
                client_id,
                client_secret,
                poll_interval_secs: poll,
                refresh_token,
                refresh_token_path,
            },
        ),
    )
}

/// The variables the presence service is configured from.
pub struct ProfileEnv {
    pub bot_token: EnvValue,
    pub target_user_id: EnvValue,
    pub target_guild_id: EnvValue,
    pub bind_addr: EnvValue,
    pub state_path: EnvValue,
    pub stale_after_secs: EnvValue,
    pub unavailable_after_secs: EnvValue,
}

/// The presence service's settings.
#[derive(Debug, PartialEq, Eq)]
pub struct ProfileConfig {
    pub bot_token: String,
    pub target_user_id: u64,
    pub target_guild_id: u64,
    pub bind_addr: String,
    pub state_path: String,
    pub stale_after_secs: u64,
    pub unavailable_after_secs: u64,
}

/// The value of a `ProfileConfig`.
pub struct ProfileConfigModel {
    pub bot_token: Seq<char>,
    pub target_user_id: u64,
    pub target_guild_id: u64,
    pub bind_addr: Seq<char>,
    pub state_path: Seq<char>,
    pub stale_after_secs: u64,
    pub unavailable_after_secs: u64,
}

impl DeepView for ProfileConfig {
    type V = ProfileConfigModel;

    open spec fn deep_view(&self) -> ProfileConfigModel {
        ProfileConfigModel {
            bot_token: self.bot_token@,
            target_user_id: self.target_user_id,
            target_guild_id: self.target_guild_id,
            bind_addr: self.bind_addr@,
            state_path: self.state_path@,
            stale_after_secs: self.stale_after_secs,
            unavailable_after_secs: self.unavailable_after_secs,
        }
    }
}

/// The bind address that is used: the variable's value, else the default.
pub open spec fn bind_addr_spec(env: ProfileEnv) -> Result<Seq<char>, ConfigError> {
    match optional_spec("PROFILE_BIND_ADDR", env.bind_addr.deep_view()) {
        Err(e) => Err(e),
        Ok(Some(s)) => Ok(s),
        Ok(None) => Ok(DEFAULT_BIND_ADDR@),
    }
}

/// The presence service's settings: a bot token that is not blank, non-zero target ids,
/// a bind address that parses (`bind_addr_parses` says whether the address that is used
/// does), the state path, and a staleness window below the unavailability window.
pub open spec fn profile_spec(env: ProfileEnv, bind_addr_parses: bool) -> Result<ProfileConfigModel, ConfigError> {
    let token = required_spec("DISCORD_BOT_TOKEN", env.bot_token.deep_view());
    let user = match required_spec("TARGET_DISCORD_USER_ID", env.target_user_id.deep_view()) {
        Ok(s) => snowflake_spec("TARGET_DISCORD_USER_ID", s),
        Err(e) => Err(e),
    };
    let guild = match required_spec("TARGET_GUILD_ID", env.target_guild_id.deep_view()) {
        Ok(s) => snowflake_spec("TARGET_GUILD_ID", s),
        Err(e) => Err(e),
    };
    let bind = bind_addr_spec(env);
    let state_path = path_spec("PROFILE_STATE_PATH", env.state_path.deep_view(), DEFAULT_STATE_PATH@);
    let stale = optional_seconds_spec(
        "PROFILE_STALE_AFTER_SECS",
        env.stale_after_secs.deep_view(),
        DEFAULT_STALE_AFTER_SECS,
    );
    let unavailable = optional_seconds_spec(
        "PROFILE_UNAVAILABLE_AFTER_SECS",
        env.unavailable_after_secs.deep_view(),
        DEFAULT_UNAVAILABLE_AFTER_SECS,
    );
    if token is Err {
        Err(token->Err_0)
    } else if trim_spec(token->Ok_0).len() == 0 {
        Err(ConfigError::EmptyValue("DISCORD_BOT_TOKEN"))
    } else if user is Err {
        Err(user->Err_0)
    } else if guild is Err {
        Err(guild->Err_0)
    } else if bind is Err {
        Err(bind->Err_0)
    } else if !bind_addr_parses {
        Err(ConfigError::InvalidSocketAddress("PROFILE_BIND_ADDR"))
    } else if state_path is Err {
        Err(state_path->Err_0)
    } else if stale is Err {
        Err(stale->Err_0)
    } else if unavailable is Err {
        Err(unavailable->Err_0)
    } else if stale->Ok_0 >= unavailable->Ok_0 {
        Err(ConfigError::InvalidStaleWindow)
    } else {
        Ok(
            ProfileConfigModel {
                bot_token: token->Ok_0,
                target_user_id: user->Ok_0,
                target_guild_id: guild->Ok_0,
                bind_addr: bind->Ok_0,
                state_path: state_path->Ok_0,
                stale_after_secs: stale->Ok_0,
                unavailable_after_secs: unavailable->Ok_0,
            },
        )
    }
}

/// The bind address that is used: the variable's value, else the default.
pub fn bind_addr_value(env: &ProfileEnv) -> (r: Result<String, ConfigError>)
    ensures
        match bind_addr_spec(*env) {
            Ok(s) => (r matches Ok(x) && x@ == s),
            Err(e) => r == Err::<String, ConfigError>(e),
        },
{
    match &env.bind_addr {
        EnvValue::Unset => Ok(owned(DEFAULT_BIND_ADDR)),
        EnvValue::NotUnicode => Err(ConfigError::NotUtf8("PROFILE_BIND_ADDR")),
        EnvValue::Text(s) => Ok(owned(s.as_str())),
    }
}

/// The presence service's settings.
pub fn profile_config(env: &ProfileEnv, bind_addr_parses: bool) -> (r: Result<ProfileConfig, ConfigError>)
    ensures
        match profile_spec(*env, bind_addr_parses) {
            Ok(m) => (r matches Ok(c) && c.deep_view() == m),
            Err(e) => r == Err::<ProfileConfig, ConfigError>(e),
        },
{
    let bot_token = match required("DISCORD_BOT_TOKEN", &env.bot_token) {
        Ok(v) => v,
        Err(e) => return Err(e),
    };
    if is_blank(bot_token.as_str()) {
        return Err(ConfigError::EmptyValue("DISCORD_BOT_TOKEN"));
    }
    let target_user_id = match required("TARGET_DISCORD_USER_ID", &env.target_user_id) {
        Ok(v) => match parse_snowflake("TARGET_DISCORD_USER_ID", v) {
            Ok(n) => n,
            Err(e) => return Err(e),
        },
        Err(e) => return Err(e),
    };
    let target_guild_id = match required("TARGET_GUILD_ID", &env.target_guild_id) {
        Ok(v) => match parse_snowflake("TARGET_GUILD_ID", v) {
            Ok(n) => n,
            Err(e) => return Err(e),
        },
        Err(e) => return Err(e),
    };
    let bind_addr = match bind_addr_value(env) {
        Ok(v) => v,
        Err(e) => return Err(e),
    };
    if !bind_addr_parses {
        return Err(ConfigError::InvalidSocketAddress("PROFILE_BIND_ADDR"));
    }
    let state_path = match optional_path("PROFILE_STATE_PATH", &env.state_path, DEFAULT_STATE_PATH) {
        Ok(v) => v,
        Err(e) => return Err(e),
    };
    let stale = match optional_seconds("PROFILE_STALE_AFTER_SECS", &env.stale_after_secs, DEFAULT_STALE_AFTER_SECS) {
        Ok(v) => v,
        Err(e) => return Err(e),
    };
    let unavailable = match optional_seconds(
        "PROFILE_UNAVAILABLE_AFTER_SECS",
        &env.unavailable_after_secs,
        DEFAULT_UNAVAILABLE_AFTER_SECS,
    ) {
        Ok(v) => v,
        Err(e) => return Err(e),
    };
    if stale >= unavailable {
        return Err(ConfigError::InvalidStaleWindow);
    }
    Ok(
        ProfileConfig {
            bot_token,
            target_user_id,
            target_guild_id,
            bind_addr,
            state_path,
            stale_after_secs: stale,
            unavailable_after_secs: unavailable,
        },
    )
}

/// The kept entries are non-empty and no two of them are equal ignoring ASCII case.
pub proof fn law_distinct_entries(entries: Seq<Seq<char>>)
    ensures
        forall|i: int|
            0 <= i < distinct_entries(entries).len() ==> (#[trigger] distinct_entries(entries)[i]).len()
                > 0,
        forall|i: int, j: int|
            0 <= i < j < distinct_entries(entries).len() ==> !eq_ignore_case_spec(
                #[trigger] distinct_entries(entries)[i],
                #[trigger] distinct_entries(entries)[j],
            ),
    decreases entries.len(),
{
    if entries.len() > 0 {
        law_distinct_entries(entries.drop_last());
        let kept = distinct_entries(entries.drop_last());
        let e = entries.last();
        if !(e.len() == 0 || exists|k: int| 0 <= k < kept.len() && eq_ignore_case_spec(#[trigger] kept[k], e)) {
            let next = kept.push(e);
            assert forall|i: int, j: int| 0 <= i < j < next.len() implies !eq_ignore_case_spec(
                #[trigger] next[i],
                #[trigger] next[j],
            ) by {
                if j == kept.len() {
                    assert(next[i] == kept[i]);
                    assert(!eq_ignore_case_spec(kept[i], e));
                }
            }
        }
    }
}

/// The featured repository list holds non-empty names, none twice ignoring ASCII case.
pub proof fn law_csv_entries_are_distinct(value: Seq<char>)
    ensures
        forall|i: int|
            0 <= i < csv_spec(value).len() ==> (#[trigger] csv_spec(value)[i]).len() > 0,
        forall|i: int, j: int|
            0 <= i < j < csv_spec(value).len() ==> !eq_ignore_case_spec(
                #[trigger] csv_spec(value)[i],
                #[trigger] csv_spec(value)[j],
            ),
{
    law_distinct_entries(split_spec(value, ',').map_values(|p: Seq<char>| trim_spec(p)));
}

} // verus!
