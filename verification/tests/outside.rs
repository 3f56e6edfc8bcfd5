use meowsn::links::{message_words, url_pattern};
use meowsn::release::{release_is_newer, UpdateCheckError};

#[test]
fn newer_release_is_detected() {
    assert_eq!(release_is_newer("v1.2.0", "1.1.0"), Ok(true));
    assert_eq!(release_is_newer("v0.10.0", "0.9.5"), Ok(true));
    assert_eq!(release_is_newer("v2.0.0", "10.0.0"), Ok(false));
}

#[test]
fn same_or_older_release_is_not_newer() {
    assert_eq!(release_is_newer("v1.1.0", "1.1.0"), Ok(false));
    assert_eq!(release_is_newer("v1.0.9", "1.1.0"), Ok(false));
}

#[test]
fn tag_without_v_is_read_too() {
    assert_eq!(release_is_newer("1.1.1", "1.1.0"), Ok(true));
}

#[test]
fn invalid_release_tag() {
    assert_eq!(release_is_newer("latest", "1.0.0"), Err(UpdateCheckError::InvalidRelease));
    assert_eq!(release_is_newer("v1.0", "1.0.0"), Err(UpdateCheckError::InvalidRelease));
}

#[test]
fn invalid_running_version() {
    assert_eq!(release_is_newer("v1.0.0", "one"), Err(UpdateCheckError::InvalidCurrent));
}

#[test]
fn url_pattern_compiles() {
    assert!(url_pattern().is_some());
}

#[test]
fn web_addresses_are_links() {
    let pattern = url_pattern();
    let words = message_words("see https://example.com/page?x=1 and www.nope", &pattern);
    let shown: Vec<(&str, bool)> = words.iter().map(|w| (w.text.as_str(), w.is_link)).collect();
    assert_eq!(
        shown,
        vec![("see", false), ("https://example.com/page?x=1", true), ("and", false), ("www.nope", false)]
    );
}

#[test]
fn no_pattern_means_no_links() {
    let words = message_words("http://a.com b", &None);
    assert_eq!(words.len(), 2);
    assert!(words.iter().all(|w| !w.is_link));
}

#[test]
fn message_words_keep_empty_words_between_spaces() {
    let words = message_words("a  b", &url_pattern());
    let texts: Vec<&str> = words.iter().map(|w| w.text.as_str()).collect();
    assert_eq!(texts, vec!["a", "", "b"]);
}
