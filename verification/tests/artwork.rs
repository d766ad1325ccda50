use profile_materials::artwork::{supported_content_type, trusted_artwork_url, EmbeddedArtworkBatch};
use profile_materials::artwork::{chunk_fits, data_uri, declared_length_allowed, MAX_ARTWORK_BYTES};
use profile_materials::artwork::{accept_artwork, ArtworkCache, MAX_CACHE_ENTRIES};

#[test]
fn only_known_https_artwork_origins_are_allowed() {
    assert!(trusted_artwork_url("https://cdn.discordapp.com/app-assets/123/456.png").is_some());
    assert!(
        trusted_artwork_url("https://cdn.discordapp.com/app-icons/123/abcdef.png?size=512").is_some()
    );
    assert!(trusted_artwork_url("https://cdn.discordapp.com/avatars/123/hash.webp?size=256").is_some());
    assert!(
        trusted_artwork_url("https://cdn.discordapp.com/avatar-decoration-presets/a_hash.png?size=256")
            .is_some()
    );
    assert!(
        trusted_artwork_url("https://cdn.discordapp.com/guild-tag-badges/123/hash.png?size=64").is_some()
    );
    assert!(trusted_artwork_url("https://cdn.discordapp.com/embed/avatars/2.png").is_some());
    assert!(
        trusted_artwork_url("https://media.discordapp.net/external/hash/https/example.invalid/icon.png")
            .is_some()
    );
    assert!(trusted_artwork_url("https://i.scdn.co/image/abc123").is_some());

    assert!(trusted_artwork_url("http://i.scdn.co/image/abc123").is_none());
    assert!(trusted_artwork_url("https://example.com/icon.png").is_none());
    assert!(trusted_artwork_url("https://cdn.discordapp.com@127.0.0.1/app-assets/1/2.png").is_none());
    assert!(trusted_artwork_url("https://cdn.discordapp.com:8443/app-assets/1/2.png").is_none());
}

#[test]
fn only_raster_image_types_are_embedded() {
    assert_eq!(supported_content_type("image/png"), Some("image/png"));
    assert_eq!(supported_content_type("image/jpeg; charset=binary"), Some("image/jpeg"));
    assert_eq!(supported_content_type("image/webp"), Some("image/webp"));
    assert_eq!(supported_content_type("image/svg+xml"), None);
    assert_eq!(supported_content_type("text/html"), None);
}

#[test]
fn empty_batch_is_complete() {
    assert!(EmbeddedArtworkBatch::default().complete());
}

#[test]
fn trusted_url_keeps_the_parsed_parts() {
    let parts = trusted_artwork_url("https://i.scdn.co/image/abc123").unwrap();
    assert_eq!(parts.host.as_deref(), Some("i.scdn.co"));
    assert_eq!(parts.path, "/image/abc123");
}

#[test]
fn batch_serves_the_last_image_of_each_url() {
    let first = "https://cdn.discordapp.com/app-assets/1/1.png";
    let second = "https://cdn.discordapp.com/app-assets/1/2.png";
    let results = vec![
        accept_artwork(first, 200, Some("image/png"), b"one"),
        None,
        accept_artwork(first, 200, Some("image/gif"), b"three"),
    ];
    let batch = EmbeddedArtworkBatch::from_results(&results);
    assert!(!batch.complete());
    assert_eq!(batch.href(first).as_deref(), Some("data:image/gif;base64,dGhyZWU="));
    assert_eq!(batch.href(second), None);
}

#[test]
fn only_accepted_artwork_of_trusted_origins_reaches_a_batch() {
    let url = "https://cdn.discordapp.com/app-assets/1/1.png";
    let accepted = accept_artwork(url, 200, Some("image/webp"), b"img").unwrap();
    assert_eq!(accepted.url(), url);
    assert!(accepted.uri().starts_with("data:image/webp;base64,"));
    let batch = EmbeddedArtworkBatch::from_results(&vec![
        Some(accepted),
        accept_artwork("https://evil.example/x.png", 200, Some("image/png"), b"img"),
    ]);
    assert!(!batch.complete());
    assert!(batch.href("https://evil.example/x.png").is_none());
    let full = EmbeddedArtworkBatch::from_results(&vec![accept_artwork(url, 200, Some("image/png"), b"x")]);
    assert!(full.complete());
    assert_eq!(full.href(url).as_deref(), Some("data:image/png;base64,eA=="));
}

#[test]
fn embedding_limits_and_data_uris() {
    assert!(declared_length_allowed(None));
    assert!(declared_length_allowed(Some(MAX_ARTWORK_BYTES as u64)));
    assert!(!declared_length_allowed(Some(MAX_ARTWORK_BYTES as u64 + 1)));
    assert!(chunk_fits(MAX_ARTWORK_BYTES - 10, 10));
    assert!(!chunk_fits(MAX_ARTWORK_BYTES - 10, 11));
    assert!(!chunk_fits(usize::MAX, 1));
    assert_eq!(data_uri("image/png", b"hi").as_deref(), Some("data:image/png;base64,aGk="));
    assert_eq!(data_uri("image/png", b""), None);
}

#[test]
fn artwork_cache_replaces_and_empties_when_full() {
    let art = |url: &str, bytes: &[u8]| accept_artwork(url, 200, Some("image/png"), bytes).unwrap();
    let a = "https://cdn.discordapp.com/app-assets/1/a.png";
    let mut cache = ArtworkCache::new();
    assert!(cache.get(a).is_none());
    cache.insert(&art(a, b"1"));
    cache.insert(&art(a, b"2"));
    assert_eq!(cache.get(a).unwrap().uri(), "data:image/png;base64,Mg==");
    for k in 1..MAX_CACHE_ENTRIES {
        cache.insert(&art(&format!("https://cdn.discordapp.com/app-assets/1/u{k}.png"), b"x"));
    }
    assert_eq!(cache.get(a).unwrap().uri(), "data:image/png;base64,Mg==");
    let late = "https://cdn.discordapp.com/app-assets/1/late.png";
    cache.insert(&art(late, b"late"));
    assert!(cache.get(a).is_none());
    assert_eq!(cache.get(late).unwrap().uri(), "data:image/png;base64,bGF0ZQ==");
}

#[test]
fn only_trusted_successful_images_are_embedded() {
    let url = "https://cdn.discordapp.com/app-assets/123/456.png";
    assert_eq!(
        accept_artwork(url, 200, Some("image/PNG; charset=binary"), b"abc").map(|a| a.uri().to_owned()),
        Some("data:image/png;base64,YWJj".to_owned())
    );
    assert!(accept_artwork("https://example.com/a.png", 200, Some("image/png"), b"abc").is_none());
    assert!(accept_artwork(url, 404, Some("image/png"), b"abc").is_none());
    assert!(accept_artwork(url, 200, Some("text/html"), b"abc").is_none());
    assert!(accept_artwork(url, 200, None, b"abc").is_none());
    assert!(accept_artwork(url, 200, Some("image/png"), b"").is_none());
}
