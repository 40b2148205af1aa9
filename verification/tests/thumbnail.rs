use remedia::thumbnail::resolve_thumbnail;

fn value(text: &str) -> serde_json::Value {
    serde_json::from_str(text).expect("valid JSON")
}

#[test]
fn test_resolve_thumbnail_direct_field() {
    let v = value(r#"{
        "thumbnail": "https://example.com/thumb.jpg"
    }"#);
    assert_eq!(resolve_thumbnail(&v), Some("https://example.com/thumb.jpg".to_string()));
}

#[test]
fn test_resolve_thumbnail_empty_string_ignored() {
    let v = value(r#"{
        "thumbnail": ""
    }"#);
    assert_eq!(resolve_thumbnail(&v), None);
}

#[test]
fn test_resolve_thumbnail_from_thumbnails_array() {
    let v = value(r#"{
        "thumbnails": [
            {"url": "https://example.com/small.jpg"},
            {"url": "https://example.com/large.jpg"}
        ]
    }"#);
    // Should pick last (highest resolution)
    assert_eq!(resolve_thumbnail(&v), Some("https://example.com/large.jpg".to_string()));
}

#[test]
fn test_resolve_thumbnail_from_thumbnail_url() {
    let v = value(r#"{
        "thumbnail_url": "https://example.com/alt.jpg"
    }"#);
    assert_eq!(resolve_thumbnail(&v), Some("https://example.com/alt.jpg".to_string()));
}

#[test]
fn test_resolve_thumbnail_priority_order() {
    // thumbnail takes priority over thumbnails and thumbnail_url
    let v = value(r#"{
        "thumbnail": "https://example.com/primary.jpg",
        "thumbnails": [{"url": "https://example.com/array.jpg"}],
        "thumbnail_url": "https://example.com/alt.jpg"
    }"#);
    assert_eq!(resolve_thumbnail(&v), Some("https://example.com/primary.jpg".to_string()));
}

#[test]
fn test_resolve_thumbnail_fallback_to_thumbnails() {
    // When thumbnail is empty, fall back to thumbnails array
    let v = value(r#"{
        "thumbnail": "",
        "thumbnails": [{"url": "https://example.com/array.jpg"}]
    }"#);
    assert_eq!(resolve_thumbnail(&v), Some("https://example.com/array.jpg".to_string()));
}

#[test]
fn test_resolve_thumbnail_no_valid_source() {
    let v = value(r#"{
        "title": "Some Video"
    }"#);
    assert_eq!(resolve_thumbnail(&v), None);
}

#[test]
fn test_resolve_thumbnail_non_http_filtered() {
    let v = value(r#"{
        "thumbnail": "file:///local/path.jpg"
    }"#);
    assert_eq!(resolve_thumbnail(&v), None);
}

#[test]
fn test_resolve_thumbnail_https_accepted() {
    let v = value(r#"{
        "thumbnail": "https://secure.example.com/thumb.jpg"
    }"#);
    assert_eq!(resolve_thumbnail(&v), Some("https://secure.example.com/thumb.jpg".to_string()));
}

#[test]
fn test_resolve_thumbnail_empty_thumbnails_array() {
    let v = value(r#"{
        "thumbnails": []
    }"#);
    assert_eq!(resolve_thumbnail(&v), None);
}

#[test]
fn test_resolve_thumbnail_thumbnails_missing_url() {
    let v = value(r#"{
        "thumbnails": [{"width": 100, "height": 100}]
    }"#);
    assert_eq!(resolve_thumbnail(&v), None);
}

#[test]
fn test_redgifs_fallback_from_formats() {
    let v = value(r#"{
        "extractor": "RedGifs",
        "formats": [
            {"url": "https://files.redgifs.com/SomeGifId.mp4"}
        ]
    }"#);
    assert_eq!(resolve_thumbnail(&v), Some("https://thumbs2.redgifs.com/SomeGifId-mobile.jpg".to_string()));
}

#[test]
fn test_redgifs_fallback_strips_mobile_suffix() {
    let v = value(r#"{
        "extractor": "RedGifs",
        "formats": [
            {"url": "https://files.redgifs.com/TestId-mobile.mp4"}
        ]
    }"#);
    assert_eq!(resolve_thumbnail(&v), Some("https://thumbs2.redgifs.com/TestId-mobile.jpg".to_string()));
}

#[test]
fn test_redgifs_fallback_from_id() {
    let v = value(r#"{
        "extractor": "RedGifs",
        "id": "FallbackId"
    }"#);
    assert_eq!(resolve_thumbnail(&v), Some("https://thumbs2.redgifs.com/FallbackId-mobile.jpg".to_string()));
}

#[test]
fn test_redgifs_fallback_from_display_id() {
    let v = value(r#"{
        "extractor": "RedGifs",
        "display_id": "DisplayFallback"
    }"#);
    assert_eq!(resolve_thumbnail(&v), Some("https://thumbs2.redgifs.com/DisplayFallback-mobile.jpg".to_string()));
}

#[test]
fn test_redgifs_prefers_format_url_over_id() {
    let v = value(r#"{
        "extractor": "RedGifs",
        "id": "FallbackId",
        "formats": [
            {"url": "https://files.redgifs.com/PreferredId.mp4"}
        ]
    }"#);
    assert_eq!(resolve_thumbnail(&v), Some("https://thumbs2.redgifs.com/PreferredId-mobile.jpg".to_string()));
}

#[test]
fn test_redgifs_not_triggered_for_other_extractors() {
    let v = value(r#"{
        "extractor": "YouTube",
        "id": "dQw4w9WgXcQ"
    }"#);
    // Should not generate RedGifs thumbnail URL
    assert_eq!(resolve_thumbnail(&v), None);
}

#[test]
fn test_redgifs_empty_id_ignored() {
    let v = value(r#"{
        "extractor": "RedGifs",
        "id": "   "
    }"#);
    assert_eq!(resolve_thumbnail(&v), None);
}

#[test]
fn test_redgifs_with_direct_thumbnail_uses_it() {
    // If RedGifs provides a direct thumbnail, use it instead of fallback
    let v = value(r#"{
        "extractor": "RedGifs",
        "thumbnail": "https://thumbs.redgifs.com/direct.jpg",
        "id": "SomeId"
    }"#);
    assert_eq!(resolve_thumbnail(&v), Some("https://thumbs.redgifs.com/direct.jpg".to_string()));
}
