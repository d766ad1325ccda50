use profile_materials::identity::{
    avatar_decoration_url, avatar_url, identity_from_user, primary_guild, ApiPrimaryGuild, ApiUser,
    DiscordIdentityData, IdentityStore,
};

#[test]
fn default_avatar_is_derived_from_the_user_id() {
    assert!(avatar_url("984085171408080897", None).contains("/embed/avatars/"));
}

#[test]
fn hidden_primary_guild_is_not_rendered() {
    assert!(primary_guild(&ApiPrimaryGuild {
        badge: Some("badge".to_owned()),
        identity_enabled: Some(false),
        identity_guild_id: Some("123".to_owned()),
        tag: Some("TEST".to_owned()),
    })
    .is_none());
}

#[test]
fn default_avatar_index_uses_the_snowflake_timestamp_bits() {
    assert_eq!(
        avatar_url("984085171408080897", None),
        "https://cdn.discordapp.com/embed/avatars/2.png"
    );
    assert_eq!(
        avatar_url("123", Some("hash")),
        "https://cdn.discordapp.com/avatars/123/hash.webp?size=256"
    );
    assert_eq!(avatar_url("not-a-number", Some("  ")), "https://cdn.discordapp.com/embed/avatars/0.png");
}

#[test]
fn visible_primary_guild_builds_its_badge_url() {
    let guild = primary_guild(&ApiPrimaryGuild {
        badge: Some(" badge ".to_owned()),
        identity_enabled: Some(true),
        identity_guild_id: Some("123".to_owned()),
        tag: Some(" TEST ".to_owned()),
    })
    .unwrap();
    assert_eq!(guild.tag, "TEST");
    assert_eq!(
        guild.badge_url.as_deref(),
        Some("https://cdn.discordapp.com/guild-tag-badges/123/badge.png?size=64")
    );
    assert_eq!(
        avatar_decoration_url("a_hash"),
        "https://cdn.discordapp.com/avatar-decoration-presets/a_hash.png?size=256"
    );
}

fn user(id: &str, global_name: Option<&str>) -> ApiUser {
    ApiUser {
        avatar: None,
        avatar_decoration_asset: None,
        global_name: global_name.map(ToOwned::to_owned),
        id: id.to_owned(),
        primary_guild: None,
        public_flags: Some(512),
        username: "herz".to_owned(),
    }
}

#[test]
fn identity_belongs_to_the_expected_user_only() {
    assert!(identity_from_user(&user("1", None), "2").is_none());
    let identity = identity_from_user(&user("1", Some("  ")), "1").unwrap();
    assert_eq!(identity.display_name, "herz");
    assert_eq!(identity.public_flags, 512);
    let named = identity_from_user(&user("1", Some(" Herz ")), "1").unwrap();
    assert_eq!(named.display_name, "Herz");
}

fn data(name: &str) -> DiscordIdentityData {
    DiscordIdentityData {
        avatar_decoration_url: None,
        avatar_url: "https://cdn.discordapp.com/embed/avatars/0.png".to_owned(),
        display_name: name.to_owned(),
        primary_guild: None,
        public_flags: 0,
        username: "herz".to_owned(),
    }
}

#[test]
fn identity_revision_advances_only_on_change() {
    let mut store = IdentityStore::new();
    assert!(store.load().is_none());
    let (changed, first) = store.publish(data("Herz"));
    assert!(changed);
    assert_eq!(store.publish(data("Herz")), (false, first));
    let (changed, second) = store.publish(data("Other"));
    assert!(changed);
    assert_eq!(second, first + 1);
    assert_eq!(store.load().unwrap().revision, second);
}
