//! The Discord identity shown on the cards: names, avatar and decoration images, the
//! primary guild tag, and the store that revisions it.
use vstd::prelude::*;

use crate::numbers::{parse_u64, parse_u64_spec};
use crate::state::{clone_opt_string, same_opt_string};
use crate::text::{decimal, decimal_spec, equals, is_blank, owned, push_str, trim, trim_spec};

verus! {

#[derive(Debug, PartialEq, Eq)]
pub struct PrimaryGuildIdentity {
    pub badge_url: Option<String>,
    pub tag: String,
}

/// The value of a `PrimaryGuildIdentity`.
pub struct GuildModel {
    pub badge_url: Option<Seq<char>>,
    pub tag: Seq<char>,
}

impl DeepView for PrimaryGuildIdentity {
    type V = GuildModel;

    open spec fn deep_view(&self) -> GuildModel {
        GuildModel { badge_url: self.badge_url.deep_view(), tag: self.tag@ }
    }
}

#[derive(Debug, PartialEq, Eq)]
pub struct DiscordIdentityData {
    pub avatar_decoration_url: Option<String>,
    pub avatar_url: String,
    pub display_name: String,
    pub primary_guild: Option<PrimaryGuildIdentity>,
    pub public_flags: u64,
    pub username: String,
}

/// The value of a `DiscordIdentityData`.
pub struct IdentityModel {
    pub avatar_decoration_url: Option<Seq<char>>,
    pub avatar_url: Seq<char>,
    pub display_name: Seq<char>,
    pub primary_guild: Option<GuildModel>,
    pub public_flags: u64,
    pub username: Seq<char>,
}

impl DeepView for DiscordIdentityData {
    type V = IdentityModel;

    open spec fn deep_view(&self) -> IdentityModel {
        IdentityModel {
            avatar_decoration_url: self.avatar_decoration_url.deep_view(),
            avatar_url: self.avatar_url@,
            display_name: self.display_name@,
            primary_guild: self.primary_guild.deep_view(),
            public_flags: self.public_flags,
            username: self.username@,
        }
    }
}

#[derive(Debug, PartialEq, Eq)]
pub struct DiscordIdentitySnapshot {
    pub data: DiscordIdentityData,
    pub revision: u64,
}

/// The value of a `DiscordIdentitySnapshot`.
pub struct IdentitySnapshotModel {
    pub data: IdentityModel,
    pub revision: u64,
}

impl DeepView for DiscordIdentitySnapshot {
    type V = IdentitySnapshotModel;

    open spec fn deep_view(&self) -> IdentitySnapshotModel {
        IdentitySnapshotModel { data: self.data.deep_view(), revision: self.revision }
    }
}

impl Clone for PrimaryGuildIdentity {
    fn clone(&self) -> (r: Self)
        ensures
            r.deep_view() == self.deep_view(),
    {
        PrimaryGuildIdentity {
            badge_url: clone_opt_string(&self.badge_url),
            tag: owned(self.tag.as_str()),
        }
    }
}

impl Clone for DiscordIdentityData {
    fn clone(&self) -> (r: Self)
        ensures
            r.deep_view() == self.deep_view(),
    {
        DiscordIdentityData {
            avatar_decoration_url: clone_opt_string(&self.avatar_decoration_url),
            avatar_url: owned(self.avatar_url.as_str()),
            display_name: owned(self.display_name.as_str()),
            primary_guild: match &self.primary_guild {
                Some(g) => Some(g.clone()),
                None => None,
            },
            public_flags: self.public_flags,
            username: owned(self.username.as_str()),
        }
    }
}

impl Clone for DiscordIdentitySnapshot {
    fn clone(&self) -> (r: Self)
        ensures
            r.deep_view() == self.deep_view(),
    {
        DiscordIdentitySnapshot { data: self.data.clone(), revision: self.revision }
    }
}

/// Whether two identities are equal.
pub fn same_identity(a: &DiscordIdentityData, b: &DiscordIdentityData) -> (r: bool)
    ensures
        r == (a.deep_view() == b.deep_view()),
{
    let guild_same = match (&a.primary_guild, &b.primary_guild) {
        (Some(x), Some(y)) => same_opt_string(&x.badge_url, &y.badge_url) && equals(
            x.tag.as_str(),
            y.tag.as_str(),
        ),
        (None, None) => true,
        _ => false,
    };
    same_opt_string(&a.avatar_decoration_url, &b.avatar_decoration_url) && equals(
        a.avatar_url.as_str(),
        b.avatar_url.as_str(),
    ) && equals(a.display_name.as_str(), b.display_name.as_str()) && guild_same
        && a.public_flags == b.public_flags && equals(a.username.as_str(), b.username.as_str())
}

/// The latest identity and its revision.
pub struct IdentityStore {
    current: Option<DiscordIdentitySnapshot>,
}

impl IdentityStore {
    pub closed spec fn snapshot(&self) -> Option<IdentitySnapshotModel> {
        self.current.deep_view()
    }

    pub fn new() -> (r: Self)
        ensures
            r.snapshot() is None,
    {
        IdentityStore { current: None }
    }

    /// A copy of the current snapshot, if any.
    pub fn load(&self) -> (r: Option<DiscordIdentitySnapshot>)
        ensures
            r.deep_view() == self.snapshot(),
    {
        match &self.current {
            Some(s) => Some(s.clone()),
            None => None,
        }
    }

    /// Records a fetched identity: an equal one keeps the snapshot and its revision; a
    /// different one is stored with the next revision (the first has revision 1).
    /// Returns whether it changed and the revision.
    pub fn publish(&mut self, data: DiscordIdentityData) -> (r: (bool, u64))
        ensures
            (final(self).snapshot(), r) == identity_publish_spec(old(self).snapshot(), data.deep_view()),
    {
        let revision = match &self.current {
            Some(current) => {
                if same_identity(&current.data, &data) {
                    return (false, current.revision);
                }
                current.revision.saturating_add(1)
            },
            None => 1,
        };
        self.current = Some(DiscordIdentitySnapshot { data, revision });
        (true, revision)
    }
}

/// 2^22: the low bits of a snowflake below its timestamp.
pub open spec fn snowflake_timestamp_shift() -> nat {
    4_194_304
}

/// The avatar image of a user: the uploaded avatar where its hash is not blank, else the
/// default avatar chosen by the user id (none of the six if the id is not a number).
pub open spec fn avatar_url_spec(user_id: Seq<char>, hash: Option<Seq<char>>) -> Seq<char> {
    match hash {
        Some(h) if trim_spec(h).len() > 0 => "https://cdn.discordapp.com/avatars/"@ + user_id + "/"@
            + h + ".webp?size=256"@,
        _ => {
            let index: nat = match parse_u64_spec(user_id) {
                Some(v) => (v as nat / snowflake_timestamp_shift()) % 6,
                None => 0,
            };
            "https://cdn.discordapp.com/embed/avatars/"@ + decimal_spec(index) + ".png"@
        },
    }
}

/// The avatar image of a user.
pub fn avatar_url(user_id: &str, avatar_hash: Option<&str>) -> (r: String)
    ensures
        r@ == avatar_url_spec(
            user_id@,
            match avatar_hash {
                Some(h) => Some(h@),
                None => None,
            },
        ),
{
    if let Some(hash) = avatar_hash {
        if !is_blank(hash) {
            let mut r = owned("https://cdn.discordapp.com/avatars/");
            push_str(&mut r, user_id);
            push_str(&mut r, "/");
            push_str(&mut r, hash);
            push_str(&mut r, ".webp?size=256");
            return r;
        }
    }
    let index: u64 = match parse_u64(user_id) {
        Some(v) => {
            let shifted = v >> 22;
            proof {
                assert(shifted == v / 4_194_304) by (bit_vector)
                    requires
                        shifted == v >> 22,
                ;
            }
            shifted % 6
        },
        None => 0,
    };
    let mut r = owned("https://cdn.discordapp.com/embed/avatars/");
    let digits = decimal(index);
    push_str(&mut r, digits.as_str());
    push_str(&mut r, ".png");
    r
}

/// The image of an avatar decoration preset.
pub fn avatar_decoration_url(asset: &str) -> (r: String)
    ensures
        r@ == "https://cdn.discordapp.com/avatar-decoration-presets/"@ + asset@ + ".png?size=256"@,
{
    let mut r = owned("https://cdn.discordapp.com/avatar-decoration-presets/");
    push_str(&mut r, asset);
    push_str(&mut r, ".png?size=256");
    r
}

/// A user's primary guild as the Discord user API reports it.
#[derive(Debug)]
pub struct ApiPrimaryGuild {
    pub badge: Option<String>,
    pub identity_enabled: Option<bool>,
    pub identity_guild_id: Option<String>,
    pub tag: Option<String>,
}

/// A user as the Discord user API reports it.
#[derive(Debug)]
pub struct ApiUser {
    pub avatar: Option<String>,
    pub avatar_decoration_asset: Option<String>,
    pub global_name: Option<String>,
    pub id: String,
    pub primary_guild: Option<ApiPrimaryGuild>,
    pub public_flags: Option<u64>,
    pub username: String,
}

/// The trimmed text where it is not blank.
pub open spec fn trimmed_value(v: Option<Seq<char>>) -> Option<Seq<char>> {
    match v {
        Some(s) => if trim_spec(s).len() > 0 {
            Some(trim_spec(s))
        } else {
            None
        },
        None => None,
    }
}

/// The guild tag shown for a user: only where the user shows it and it is not blank;
/// its badge where both the guild id and a badge that is not blank are known.
pub open spec fn primary_guild_spec(
    badge: Option<Seq<char>>,
    enabled: Option<bool>,
    guild_id: Option<Seq<char>>,
    tag: Option<Seq<char>>,
) -> Option<GuildModel> {
    if enabled != Some(true) || trimmed_value(tag) is None {
        None
    } else {
        Some(
            GuildModel {
                badge_url: match (guild_id, trimmed_value(badge)) {
                    (Some(g), Some(b)) => Some(
                        "https://cdn.discordapp.com/guild-tag-badges/"@ + g + "/"@ + b
                            + ".png?size=64"@,
                    ),
                    _ => None,
                },
                tag: trimmed_value(tag)->0,
            },
        )
    }
}

/// The guild tag shown for a user.
pub fn primary_guild(guild: &ApiPrimaryGuild) -> (r: Option<PrimaryGuildIdentity>)
    ensures
        r.deep_view() == primary_guild_spec(
            guild.badge.deep_view(),
            guild.identity_enabled,
            guild.identity_guild_id.deep_view(),
            guild.tag.deep_view(),
        ),
{
    if guild.identity_enabled != Some(true) {
        return None;
    }
    let tag = match crate::text::non_empty(&guild.tag) {
        Some(t) => t,
        None => return None,
    };
    let badge = crate::text::non_empty(&guild.badge);
    let badge_url = match (&guild.identity_guild_id, badge) {
        (Some(guild_id), Some(b)) => {
            let mut r = owned("https://cdn.discordapp.com/guild-tag-badges/");
            push_str(&mut r, guild_id.as_str());
            push_str(&mut r, "/");
            push_str(&mut r, b.as_str());
            push_str(&mut r, ".png?size=64");
            Some(r)
        },
        _ => None,
    };
    Some(PrimaryGuildIdentity { badge_url, tag })
}

/// The identity of a fetched user: the display name is the global name where it is not
/// blank (trimmed), else the username.
pub open spec fn identity_spec(user: ApiUser) -> IdentityModel {
    IdentityModel {
        avatar_decoration_url: match user.avatar_decoration_asset {
            Some(a) => Some(
                "https://cdn.discordapp.com/avatar-decoration-presets/"@ + a@ + ".png?size=256"@,
            ),
            None => None,
        },
        avatar_url: avatar_url_spec(user.id@, user.avatar.deep_view()),
        display_name: match trimmed_value(user.global_name.deep_view()) {
            Some(n) => n,
            None => user.username@,
        },
        primary_guild: match user.primary_guild {
            Some(g) => primary_guild_spec(
                g.badge.deep_view(),
                g.identity_enabled,
                g.identity_guild_id.deep_view(),
                g.tag.deep_view(),
            ),
            None => None,
        },
        public_flags: match user.public_flags {
            Some(f) => f,
            None => 0,
        },
        username: user.username@,
    }
}

/// The identity of a fetched user, or nothing where the response is about another user.
pub fn identity_from_user(user: &ApiUser, expected_user_id: &str) -> (r: Option<DiscordIdentityData>)
    ensures
        user.id@ != expected_user_id@ ==> r is None,
        user.id@ == expected_user_id@ ==> (r matches Some(d) && d.deep_view() == identity_spec(
            *user,
        )),
{
    if !equals(user.id.as_str(), expected_user_id) {
        return None;
    }
    let display_name = match crate::text::non_empty(&user.global_name) {
        Some(n) => n,
        None => owned(user.username.as_str()),
    };
    let avatar_url = avatar_url(
        user.id.as_str(),
        match &user.avatar {
            Some(a) => Some(a.as_str()),
            None => None,
        },
    );
    let avatar_decoration_url = match &user.avatar_decoration_asset {
        Some(a) => Some(avatar_decoration_url(a.as_str())),
        None => None,
    };
    let primary_guild = match &user.primary_guild {
        Some(g) => primary_guild(g),
        None => None,
    };
    Some(
        DiscordIdentityData {
            avatar_decoration_url,
            avatar_url,
            display_name,
            primary_guild,
            public_flags: match user.public_flags {
                Some(f) => f,
                None => 0,
            },
            username: owned(user.username.as_str()),
        },
    )
}

/// The snapshot and answer of publishing an identity over the current snapshot.
pub open spec fn identity_publish_spec(current: Option<IdentitySnapshotModel>, data: IdentityModel) -> (
    Option<IdentitySnapshotModel>,
    (bool, u64),
) {
    match current {
        Some(c) => if c.data == data {
            (current, (false, c.revision))
        } else {
            let revision = if c.revision == u64::MAX {
                u64::MAX
            } else {
                (c.revision + 1) as u64
            };
            (Some(IdentitySnapshotModel { data, revision }), (true, revision))
        },
        None => (Some(IdentitySnapshotModel { data, revision: 1 }), (true, 1u64)),
    }
}

/// Publishing the same identity again changes nothing and reports the same revision.
pub proof fn law_identity_republish_is_unchanged(current: Option<IdentitySnapshotModel>, data: IdentityModel)
    ensures
        ({
            let (s1, r1) = identity_publish_spec(current, data);
            let (s2, r2) = identity_publish_spec(s1, data);
            &&& s2 == s1
            &&& r2 == (false, r1.1)
        }),
{
}

} // verus!
