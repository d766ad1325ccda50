use profile_materials::activity::{ArtworkSource, ResolvedArtwork};
use profile_materials::artwork::{AcceptedArtwork, EmbeddedArtworkBatch};
use profile_materials::hero::{render_hero, HeroRenderer};
use profile_materials::state::{
    ActivityAssetsSnapshot, ActivityKind, ActivitySnapshot, ClientStatusSnapshot, GatewayStatus,
    PresenceData, PresenceFreshness, PresenceSnapshot, PresenceState, PresenceStatus, RuntimeState,
};
use profile_materials::svg::{
    format_duration, presence_artwork_urls, render_artwork, render_document, svg_etag,
    spotify_artwork_urls, SpotifyLayout, SvgCache, SvgVariant,
};

fn runtime(freshness: PresenceFreshness, stream_revision: u64) -> RuntimeState {
    RuntimeState {
        freshness,
        gateway_status: GatewayStatus::Live,
        last_target_event_unix_ms: Some(1_234),
        presence: PresenceState::Known(PresenceSnapshot {
            data: PresenceData {
                activities: vec![ActivitySnapshot {
                    application_id: Some("333".to_owned()),
                    assets: Some(ActivityAssetsSnapshot {
                        large_image: Some("../../bad".to_owned()),
                        large_text: None,
                        small_image: None,
                        small_text: None,
                    }),
                    details: Some("Editing <main>& tests".to_owned()),
                    kind: ActivityKind::Playing,
                    name: "Code <script>alert(1)</script>".to_owned(),
                    party: None,
                    state: Some("repo \"profile\"".to_owned()),
                    timestamps: None,
                }],
                client_status: ClientStatusSnapshot {
                    desktop: Some(PresenceStatus::Online),
                    mobile: None,
                    web: None,
                },
                status: PresenceStatus::Online,
            },
            observed_at_unix_ms: 1_234,
            revision: 7,
        }),
        stream_revision,
        unvalidated_since_unix_ms: None,
    }
}

/// Renders a card the way the service does: a cached document for an unchanged stream
/// revision, else a new rendering with the embedded artwork.
fn render(cache: &mut SvgCache, state: &RuntimeState, variant: SvgVariant) -> profile_materials::svg::SvgDocument {
    if let Some(document) = cache.cached(state, variant) {
        return document;
    }
    let urls = match variant {
        SvgVariant::Presence => presence_artwork_urls(state),
        SvgVariant::Spotify(_) => spotify_artwork_urls(state),
        SvgVariant::HeroTest => Vec::new(),
    };
    let results: Vec<Option<AcceptedArtwork>> = urls.iter().map(|_| None).collect();
    let artwork = EmbeddedArtworkBatch::from_results(&results);
    cache.finish_render(state, variant, &artwork)
}

#[test]
fn escapes_external_text_before_inserting_it_into_svg() {
    let mut cache = SvgCache::new();
    let document = render(&mut cache, &runtime(PresenceFreshness::Fresh, 8), SvgVariant::Presence);

    assert!(!document.body().contains("<script>"));
    assert!(document.body().contains("&lt;script&gt;"));
    assert!(document.body().contains("Editing &lt;main&gt;&amp; tests"));
    assert!(document.body().contains("repo &quot;profile&quot;"));
}

#[test]
fn unchanged_stream_revision_reuses_the_rendered_document() {
    let mut cache = SvgCache::new();
    let state = runtime(PresenceFreshness::Fresh, 8);
    let first = render(&mut cache, &state, SvgVariant::Presence);
    let reused = cache.cached(&state, SvgVariant::Presence).expect("cached document");

    assert_eq!(first.body(), reused.body());
    assert_eq!(first.etag(), reused.etag());
}

#[test]
fn stale_state_keeps_lkg_but_unavailable_state_is_neutral() {
    let mut cache = SvgCache::new();
    let stale = render(&mut cache, &runtime(PresenceFreshness::Stale, 9), SvgVariant::Presence);
    assert!(stale.body().contains("last known"));
    assert!(stale.body().contains("Code &lt;script&gt;"));

    let unavailable = render(&mut cache, &runtime(PresenceFreshness::Unavailable, 10), SvgVariant::Presence);
    assert!(unavailable.body().contains("Presence temporarily unavailable"));
    assert!(!unavailable.body().contains("Code &lt;script&gt;"));
}

#[test]
fn spotify_layouts_have_stable_dimensions() {
    let mut cache = SvgCache::new();
    let state = runtime(PresenceFreshness::Fresh, 8);

    assert!(render(&mut cache, &state, SvgVariant::Spotify(SpotifyLayout::Mini))
        .body()
        .contains("viewBox=\"0 0 420 96\""));
    assert!(render(&mut cache, &state, SvgVariant::Spotify(SpotifyLayout::Compact))
        .body()
        .contains("viewBox=\"0 0 560 128\""));
    assert!(render(&mut cache, &state, SvgVariant::Spotify(SpotifyLayout::Wide))
        .body()
        .contains("viewBox=\"0 0 720 152\""));
}

#[test]
fn remote_artwork_is_never_emitted_directly() {
    let artwork = ResolvedArtwork {
        fallback_key: "rustrover",
        source: ArtworkSource::DiscordMediaProxy,
        url: Some("https://media.discordapp.net/external/hash/icon.png".to_owned()),
    };
    let mut body = String::new();

    render_artwork(&mut body, &artwork, 0, 0, 42, &EmbeddedArtworkBatch::default());

    assert!(!body.contains("https://media.discordapp.net"));
    assert!(body.contains(">R</text>"));
}

#[test]
fn hero_preserves_only_the_authored_banner() {
    let renderer = HeroRenderer::new(b"\x89PNG\r\n\x1a\nbanner");
    let body = renderer.render().body();

    assert!(body.contains("data:image/png;base64,"));
    assert!(!body.contains("OFF THE RADAR"));
    assert!(!body.contains("DISCORD"));
    assert!(!body.contains("CURRENT ACTIVITY"));
    assert!(!body.contains("LISTENING ON SPOTIFY"));
}

#[test]
fn hero_embeds_the_banner_as_base64() {
    let renderer = HeroRenderer::new(b"hi");
    assert!(renderer.render().body().contains("href=\"data:image/png;base64,aGk=\""));
    assert!(render_hero("x").contains("href=\"x\""));
    assert_eq!(renderer.render().stream_revision(), 0);
}

#[test]
fn incomplete_artwork_is_not_cached() {
    let mut cache = SvgCache::new();
    let state = runtime(PresenceFreshness::Fresh, 8);
    let partial = EmbeddedArtworkBatch::from_results(&vec![None]);
    let document = cache.finish_render(&state, SvgVariant::Presence, &partial);
    assert!(document.etag().ends_with("-partial\""));
    assert!(cache.cached(&state, SvgVariant::Presence).is_none());
}

#[test]
fn changed_stream_revision_renders_again() {
    let mut cache = SvgCache::new();
    let first = render(&mut cache, &runtime(PresenceFreshness::Fresh, 8), SvgVariant::HeroTest);
    assert!(cache.cached(&runtime(PresenceFreshness::Fresh, 9), SvgVariant::HeroTest).is_none());
    let second = render(&mut cache, &runtime(PresenceFreshness::Fresh, 9), SvgVariant::HeroTest);
    assert_ne!(first.etag(), second.etag());
    assert_eq!(second.stream_revision(), 9);
}

#[test]
fn entity_tags_name_variant_revision_and_artwork_state() {
    assert_eq!(svg_etag(SvgVariant::Presence, 8, true), "\"profile-svg-v2-presence-8-full\"");
    assert_eq!(
        svg_etag(SvgVariant::Spotify(SpotifyLayout::Wide), 3, false),
        "\"profile-svg-v2-spotify-wide-3-partial\""
    );
    let document = render_document(&runtime(PresenceFreshness::Fresh, 4), SvgVariant::HeroTest, &EmbeddedArtworkBatch::default());
    assert_eq!(document.etag(), "\"profile-svg-v2-hero-test-4-full\"");
}

#[test]
fn layouts_parse_trimmed_and_case_insensitive() {
    assert_eq!(SpotifyLayout::parse(" Wide "), Some(SpotifyLayout::Wide));
    assert_eq!(SpotifyLayout::parse("MINI"), Some(SpotifyLayout::Mini));
    assert_eq!(SpotifyLayout::parse("tall"), None);
    assert_eq!(format_duration(61_000), "1:01");
}
