use profile_materials::cards::{
    render_unavailable_card, render_unavailable_svg, unavailable_card_document,
    unavailable_svg_document, GitHubCardKind,
};

#[test]
fn unavailable_stats_card_fails_closed() {
    let card = unavailable_card_document(GitHubCardKind::Stats);
    assert!(card.body().contains("temporarily unavailable"));
    assert!(!card.body().contains("data-stats-primary=\"commits\""));
    assert!(card.etag().contains("unavailable"));
}

#[test]
fn unavailable_cards_are_tagged_by_kind_at_revision_zero() {
    let stats = unavailable_card_document(GitHubCardKind::Stats);
    assert_eq!(stats.etag(), "\"profile-github-stats-v6-0-unavailable\"");
    assert_eq!(stats.revision(), 0);
    assert!(stats.body().starts_with(
        "<svg xmlns=\"http://www.w3.org/2000/svg\" width=\"835\" height=\"300\" viewBox=\"0 0 835 300\" role=\"img\" aria-label=\"GitHub statistics\"><defs>"
    ));
    assert!(stats.body().ends_with("when one is available.</text></svg>"));

    let streak = unavailable_card_document(GitHubCardKind::Streak);
    assert_eq!(streak.etag(), "\"profile-github-card-v12-streak-unavailable\"");
    assert_eq!(streak.revision(), 0);
    assert!(streak.body().contains("<rect width=\"835\" height=\"370\" rx=\"24\" fill=\"#1A1B27\"/>"));

    let languages = render_unavailable_card(GitHubCardKind::Languages);
    assert!(languages.starts_with(
        "<svg xmlns=\"http://www.w3.org/2000/svg\" width=\"300\" height=\"340\" viewBox=\"0 0 300 340\" role=\"img\" aria-label=\"GitHub stats unavailable\"><style>"
    ));
    assert!(languages.contains("<rect width=\"300\" height=\"340\" rx=\"5\" fill=\"#1A1B27\"/>"));
    assert!(languages.ends_with("Stats are temporarily unavailable.</text></svg>"));
}

#[test]
fn unavailable_combined_card_is_a_fixed_panel() {
    let document = unavailable_svg_document();
    assert_eq!(document.etag(), "\"profile-github-v2-unavailable\"");
    assert_eq!(document.revision(), 0);
    assert_eq!(document.body(), render_unavailable_svg());
    assert!(document.body().starts_with(
        "<svg xmlns=\"http://www.w3.org/2000/svg\" width=\"760\" height=\"150\" viewBox=\"0 0 760 150\" role=\"img\" aria-label=\"GitHub stats unavailable\">"
    ));
    assert!(document.body().contains(">Stats are temporarily unavailable.</text></svg>"));
}
