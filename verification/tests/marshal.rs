use focus_bridge::event::{marshal_event, RawEvent};

fn raw(
    app_name: Option<&str>,
    window_title: Option<&str>,
    bundle_id: Option<&str>,
    url: Option<&str>,
) -> RawEvent {
    RawEvent {
        app_name: app_name.map(|s| s.to_owned()),
        window_title: window_title.map(|s| s.to_owned()),
        bundle_id: bundle_id.map(|s| s.to_owned()),
        url: url.map(|s| s.to_owned()),
    }
}

#[test]
fn absent_url_becomes_sentinel() {
    let e = marshal_event(&raw(
        Some("Safari"),
        Some("Example"),
        Some("com.apple.Safari"),
        None,
    ));
    assert_eq!(e.url, "(none)");
}

#[test]
fn empty_url_is_distinct_from_absent() {
    let absent = marshal_event(&raw(Some("Safari"), Some("t"), Some("id"), None));
    let empty = marshal_event(&raw(Some("Safari"), Some("t"), Some("id"), Some("")));
    assert_eq!(absent.url, "(none)");
    assert_eq!(empty.url, "");
    assert_ne!(absent.url, empty.url);
}

#[test]
fn present_fields_are_copied_exactly() {
    let e = marshal_event(&raw(
        Some("Safari"),
        Some("Example"),
        Some("com.apple.Safari"),
        Some("https://example.com"),
    ));
    assert_eq!(e.application_name, "Safari");
    assert_eq!(e.window_title, "Example");
    assert_eq!(e.application_identifier, "com.apple.Safari");
    assert_eq!(e.url, "https://example.com");
}

#[test]
fn empty_title_is_kept_empty() {
    let e = marshal_event(&raw(Some("Terminal"), Some(""), Some("com.apple.Terminal"), None));
    assert_eq!(e.window_title, "");
}

#[test]
fn undecodable_required_field_gets_placeholder() {
    let e = marshal_event(&raw(None, Some("t"), None, None));
    assert_eq!(e.application_name, "(invalid)");
    assert_eq!(e.application_identifier, "(invalid)");
    assert_eq!(e.window_title, "t");
}
