use clip_downloader::clips::{ClipInfo, Clips};
use clip_downloader::resolver::{all_unresolved, create_download_links, resolve_thumbnail_url};

fn clip(thumbnail: &str) -> ClipInfo {
    ClipInfo {
        name: String::from("a clip"),
        created_by: String::from("creator"),
        created_date: String::from("2020-05-01T12:00:00Z"),
        thumbnail_url: String::from(thumbnail),
        video_url: None,
    }
}

#[test]
fn preview_suffix_resolves_to_media_extension() {
    let r = resolve_thumbnail_url("https://clips-media.example.net/clip-preview-480x272.jpg");
    assert_eq!(r, "https://clips-media.example.net/clip.mp4");
}

#[test]
fn other_dimensions_and_extensions_resolve_too() {
    let r = resolve_thumbnail_url("https://host/abc-preview-640x360.png");
    assert_eq!(r, "https://host/abc.mp4");
    let r = resolve_thumbnail_url("https://host/x-preview-1x2.j");
    assert_eq!(r, "https://host/x.mp4");
}

#[test]
fn missing_suffix_passes_through_unchanged() {
    let r = resolve_thumbnail_url("https://host/clip-thumb-480x272.jpg");
    assert_eq!(r, "https://host/clip-thumb-480x272.jpg");
}

#[test]
fn malformed_suffix_passes_through_unchanged() {
    // no digits before the separator
    assert_eq!(resolve_thumbnail_url("https://h/a-preview-x272.jpg"), "https://h/a-preview-x272.jpg");
    // no digits after the separator
    assert_eq!(resolve_thumbnail_url("https://h/a-preview-480x.jpg"), "https://h/a-preview-480x.jpg");
    // no dot before the extension
    assert_eq!(resolve_thumbnail_url("https://h/a-preview-480x272jpg"), "https://h/a-preview-480x272jpg");
    // no letters after the dot
    assert_eq!(resolve_thumbnail_url("https://h/a-preview-480x272."), "https://h/a-preview-480x272.");
    assert_eq!(resolve_thumbnail_url(""), "");
}

#[test]
fn leftmost_suffix_is_replaced_and_tail_kept() {
    let r = resolve_thumbnail_url("a-preview-1x2.png-preview-3x4.jpg");
    assert_eq!(r, "a.mp4-preview-3x4.jpg");
}

#[test]
fn resolving_a_collection_fills_every_record() {
    let clips = Clips {
        clips: vec![clip("https://h/a-preview-480x272.jpg"), clip("https://h/plain.jpg")],
    };
    let resolved = create_download_links(clips);
    assert_eq!(resolved.clips.len(), 2);
    assert_eq!(resolved.clips[0].video_url.as_deref(), Some("https://h/a.mp4"));
    assert_eq!(resolved.clips[1].video_url.as_deref(), Some("https://h/plain.jpg"));
    assert_eq!(resolved.clips[0].thumbnail_url, "https://h/a-preview-480x272.jpg");
    assert_eq!(resolved.clips[0].name, "a clip");
}

#[test]
fn resolving_twice_yields_the_same_addresses() {
    let clips = Clips {
        clips: vec![
            clip("https://h/a-preview-480x272.jpg"),
            clip("https://h/b-preview-640x360.png"),
            clip("https://h/no-suffix.jpg"),
        ],
    };
    let once = create_download_links(clips);
    let urls_once: Vec<Option<String>> =
        once.clips.iter().map(|c| c.video_url.clone()).collect();
    let twice = create_download_links(once);
    let urls_twice: Vec<Option<String>> =
        twice.clips.iter().map(|c| c.video_url.clone()).collect();
    assert_eq!(urls_once, urls_twice);
}

#[test]
fn all_unresolved_notices_a_resolved_record() {
    let fresh = Clips { clips: vec![clip("https://h/a.jpg"), clip("https://h/b.jpg")] };
    assert!(all_unresolved(&fresh));
    let resolved = create_download_links(fresh);
    assert!(!all_unresolved(&resolved));
    let empty = Clips { clips: Vec::new() };
    assert!(all_unresolved(&empty));
}
