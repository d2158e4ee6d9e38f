use piri::WindowDescriptor;
use piri::matcher::Matcher;

const TITLE_PATTERN: &str = "^Picture-in-Picture$";
const APP_ID_PATTERN: &str = "firefox$";

fn matcher() -> Matcher {
    Matcher::new(TITLE_PATTERN, APP_ID_PATTERN).expect("both patterns are valid")
}

fn desc(id: u64, title: Option<&str>, app_id: Option<&str>) -> WindowDescriptor {
    WindowDescriptor {
        id,
        title: title.map(String::from),
        app_id: app_id.map(String::from),
    }
}

#[test]
fn no_title_never_matches() {
    let m = matcher();
    assert!(!m.matches(&desc(1, None, None)));
    assert!(!m.matches(&desc(1, None, Some("firefox"))));
    assert!(!m.matches(&desc(1, None, Some("something-else"))));
}

#[test]
fn matching_title_without_app_id_matches() {
    let m = matcher();
    assert!(m.matches(&desc(1, Some("Picture-in-Picture"), None)));
}

#[test]
fn matching_title_and_app_id_matches() {
    let m = matcher();
    assert!(m.matches(&desc(1, Some("Picture-in-Picture"), Some("firefox"))));
    assert!(m.matches(&desc(1, Some("Picture-in-Picture"), Some("org.mozilla.firefox"))));
}

#[test]
fn wrong_title_rejected() {
    let m = matcher();
    assert!(!m.matches(&desc(1, Some("Picture-in-Picture - extra"), Some("firefox"))));
    assert!(!m.matches(&desc(1, Some("A Picture-in-Picture"), Some("firefox"))));
    assert!(!m.matches(&desc(1, Some(""), Some("firefox"))));
}

#[test]
fn app_id_not_ending_in_firefox_rejected() {
    let m = matcher();
    assert!(!m.matches(&desc(1, Some("Picture-in-Picture"), Some("firefox-bin"))));
    assert!(!m.matches(&desc(1, Some("Picture-in-Picture"), Some("chromium"))));
}

#[test]
fn invalid_pattern_fails_construction() {
    assert!(Matcher::new("(", "firefox$").is_none());
    assert!(Matcher::new("^Picture-in-Picture$", "(").is_none());
    assert!(Matcher::new("^Picture-in-Picture$", "firefox$").is_some());
}
