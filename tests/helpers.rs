use music_bot::moderation::holds_role;
use music_bot::source::is_url;

#[test]
fn links_are_recognised() {
    assert!(is_url("http://example.com"));
    assert!(is_url("https://www.youtube.com/watch?v=abc"));
    assert!(is_url("https://"));
}

#[test]
fn search_terms_are_not_links() {
    assert!(!is_url("never gonna give you up"));
    assert!(!is_url(""));
    assert!(!is_url("http:/x"));
    assert!(!is_url("ftp://example.com"));
    assert!(!is_url(" https://example.com"));
    assert!(!is_url("HTTPS://example.com"));
}

#[test]
fn role_membership() {
    assert!(holds_role(&vec![3, 5, 8], 5));
    assert!(!holds_role(&vec![3, 5, 8], 4));
    assert!(!holds_role(&vec![], 1));
}

#[test]
fn embeds_are_built() {
    let _ = music_bot::embeds::make_info_embed("Now playing", "Song by Band");
    let _ = music_bot::embeds::make_warning_embed("Careful", "Queue is long".to_string());
    let _ = music_bot::embeds::make_error_embed(String::from("Error"), "Lookup failed");
}
