use profile_materials::config::{
    github_config, parse_csv_list, parse_seconds, parse_snowflake, profile_config, spotify_config,
    ConfigError, EnvValue, GitHubEnv, ProfileEnv, SpotifyEnv,
};
use twilight_model::id::marker::{GuildMarker, UserMarker};
use twilight_model::id::Id;

#[test]
fn parses_non_zero_snowflakes() {
    assert_eq!(parse_snowflake("TEST", "123".to_owned()), Ok(123));
    let user: Id<UserMarker> = Id::new(parse_snowflake("TEST", "123".to_owned()).unwrap());
    assert_eq!(user.get(), 123);
    let guild: Id<GuildMarker> = Id::new(parse_snowflake("TEST", "456".to_owned()).unwrap());
    assert_eq!(guild.get(), 456);
}

#[test]
fn rejects_zero_and_non_numeric_snowflakes() {
    assert_eq!(parse_snowflake("TEST", "0".to_owned()), Err(ConfigError::InvalidSnowflake("TEST")));
    assert_eq!(
        parse_snowflake("TEST", "not-an-id".to_owned()),
        Err(ConfigError::InvalidSnowflake("TEST"))
    );
}

#[test]
fn parses_positive_seconds_only() {
    assert_eq!(parse_seconds("TEST", "120"), Ok(120));
    assert_eq!(parse_seconds("TEST", "0"), Err(ConfigError::InvalidSeconds("TEST")));
    assert_eq!(parse_seconds("TEST", "abc"), Err(ConfigError::InvalidSeconds("TEST")));
}

#[test]
fn parses_featured_repository_list_in_order_without_duplicates() {
    assert_eq!(
        parse_csv_list("Graphite-Bot, profile-materials, graphite-bot, , QuestUI"),
        vec!["Graphite-Bot", "profile-materials", "QuestUI"]
    );
}

#[test]
fn seconds_reject_signs_and_overflow() {
    assert_eq!(parse_seconds("TEST", "+5"), Ok(5));
    assert_eq!(parse_seconds("TEST", "18446744073709551616"), Err(ConfigError::InvalidSeconds("TEST")));
    assert_eq!(parse_seconds("TEST", "-1"), Err(ConfigError::InvalidSeconds("TEST")));
}

fn text(value: &str) -> EnvValue {
    EnvValue::Text(value.to_owned())
}

fn github_env() -> GitHubEnv {
    GitHubEnv {
        username: EnvValue::Unset,
        token: EnvValue::Unset,
        featured_repos: EnvValue::Unset,
        state_path: EnvValue::Unset,
        poll_secs: EnvValue::Unset,
        stale_after_secs: EnvValue::Unset,
    }
}

#[test]
fn github_defaults_apply_when_unset() {
    let config = github_config(&github_env()).unwrap();
    assert_eq!(config.username, "Herzchens");
    assert_eq!(config.poll_interval_secs, 15);
    assert_eq!(config.stale_after_secs, 21_600);
    assert_eq!(config.state_path, "state/github.json");
    assert_eq!(config.token, None);
}

#[test]
fn github_poll_must_be_frequent_enough_and_below_staleness() {
    let mut env = github_env();
    env.poll_secs = text("10");
    assert_eq!(github_config(&env).err(), Some(ConfigError::GitHubPollTooFrequent));
    let mut env = github_env();
    env.poll_secs = text("100");
    env.stale_after_secs = text("100");
    assert_eq!(github_config(&env).err(), Some(ConfigError::InvalidGitHubStaleWindow));
}

fn spotify_env() -> SpotifyEnv {
    SpotifyEnv {
        client_id: EnvValue::Unset,
        client_secret: EnvValue::Unset,
        refresh_token: EnvValue::Unset,
        poll_secs: EnvValue::Unset,
        refresh_token_path: EnvValue::Unset,
    }
}

#[test]
fn spotify_is_optional_but_complete() {
    assert!(spotify_config(&spotify_env()).unwrap().is_none());
    let mut env = spotify_env();
    env.client_id = text("id");
    assert_eq!(spotify_config(&env).err(), Some(ConfigError::IncompleteSpotifyConfig));
    env.client_secret = text("secret");
    env.refresh_token = text(" token ");
    let config = spotify_config(&env).unwrap().unwrap();
    assert_eq!(config.refresh_token, "token");
    assert_eq!(config.poll_interval_secs, 5);
    env.poll_secs = text("4");
    assert_eq!(spotify_config(&env).err(), Some(ConfigError::SpotifyPollTooFrequent));
}

fn profile_env() -> ProfileEnv {
    ProfileEnv {
        bot_token: text("bot-token"),
        target_user_id: text("111"),
        target_guild_id: text("222"),
        bind_addr: EnvValue::Unset,
        state_path: EnvValue::Unset,
        stale_after_secs: EnvValue::Unset,
        unavailable_after_secs: EnvValue::Unset,
    }
}

#[test]
fn profile_requires_identifiers_and_ordered_windows() {
    let config = profile_config(&profile_env(), true).unwrap();
    assert_eq!(config.target_user_id, 111);
    assert_eq!(config.bind_addr, "127.0.0.1:3000");
    assert_eq!(config.stale_after_secs, 120);
    assert_eq!(config.unavailable_after_secs, 600);

    let mut env = profile_env();
    env.bot_token = EnvValue::Unset;
    assert_eq!(profile_config(&env, true).err(), Some(ConfigError::Missing("DISCORD_BOT_TOKEN")));

    let mut env = profile_env();
    env.unavailable_after_secs = text("60");
    assert_eq!(profile_config(&env, true).err(), Some(ConfigError::InvalidStaleWindow));

    assert_eq!(
        profile_config(&profile_env(), false).err(),
        Some(ConfigError::InvalidSocketAddress("PROFILE_BIND_ADDR"))
    );
}
