use clip_downloader::clips::{
    clips_page_step, collect_pages, user_lookup_step, Clips, FetchEnd, ListingItem, LookupError,
    LookupOutcome, PageOutcome, PageStep,
};

fn item(title: &str) -> ListingItem {
    ListingItem {
        title: String::from(title),
        creator_name: String::from("creator"),
        created_at: String::from("2020-05-01T12:00:00Z"),
        thumbnail_url: String::from("https://h/t-preview-480x272.jpg"),
    }
}

fn page(titles: &[&str], cursor: Option<&str>) -> PageOutcome {
    PageOutcome::Page {
        items: titles.iter().map(|t| item(t)).collect(),
        cursor: cursor.map(String::from),
    }
}

fn titles_of(clips: &Clips) -> Vec<String> {
    clips.clips.iter().map(|c| c.name.clone()).collect()
}

#[test]
fn pagination_stops_on_empty_page_with_all_items_in_order() {
    let pages = vec![
        page(&["a", "b"], Some("c1")),
        page(&["c", "d", "e"], Some("c2")),
        page(&["f"], Some("c3")),
        page(&[], Some("c4")),
    ];
    let (clips, end) = collect_pages(pages);
    assert_eq!(end, FetchEnd::Complete);
    assert_eq!(titles_of(&clips), vec!["a", "b", "c", "d", "e", "f"]);
}

#[test]
fn pagination_stops_when_no_cursor_comes_back() {
    let pages = vec![page(&["a"], Some("c1")), page(&["b"], None)];
    let (clips, end) = collect_pages(pages);
    assert_eq!(end, FetchEnd::Complete);
    assert_eq!(titles_of(&clips), vec!["a", "b"]);
}

#[test]
fn failed_page_keeps_earlier_items_as_degraded_success() {
    let pages = vec![
        page(&["a", "b"], Some("c1")),
        page(&["c"], Some("c2")),
        PageOutcome::NoResponse,
        page(&["d"], Some("c4")),
        page(&["e"], Some("c5")),
    ];
    let (clips, end) = collect_pages(pages);
    assert_eq!(end, FetchEnd::Degraded);
    assert_eq!(titles_of(&clips), vec!["a", "b", "c"]);
}

#[test]
fn rejected_first_page_yields_empty_degraded_result() {
    let (clips, end) = collect_pages(vec![PageOutcome::Rejected]);
    assert_eq!(end, FetchEnd::Degraded);
    assert!(clips.clips.is_empty());
}

#[test]
fn page_step_continues_with_the_returned_cursor() {
    let mut clips = Clips::default();
    let step = clips_page_step(&mut clips, page(&["a"], Some("next-cursor")));
    assert_eq!(step, PageStep::Continue(String::from("next-cursor")));
    assert_eq!(titles_of(&clips), vec!["a"]);
}

#[test]
fn page_step_ignores_cursor_on_an_empty_page() {
    let mut clips = Clips::default();
    let step = clips_page_step(&mut clips, page(&[], Some("ignored")));
    assert_eq!(step, PageStep::Done(FetchEnd::Complete));
    assert!(clips.clips.is_empty());
}

#[test]
fn records_carry_the_listing_fields_over() {
    let mut clips = Clips::with_capacity(1);
    clips.append_from_data(vec![item("a clip")]);
    let rec = &clips.clips[0];
    assert_eq!(rec.name, "a clip");
    assert_eq!(rec.created_by, "creator");
    assert_eq!(rec.created_date, "2020-05-01T12:00:00Z");
    assert_eq!(rec.thumbnail_url, "https://h/t-preview-480x272.jpg");
    assert_eq!(rec.video_url, None);
}

#[test]
fn lookup_with_no_match_is_no_such_user() {
    let r = user_lookup_step(LookupOutcome::Matches(Vec::new()));
    assert_eq!(r, Err(LookupError::NoSuchUser));
}

#[test]
fn lookup_with_several_matches_takes_the_first() {
    let r = user_lookup_step(LookupOutcome::Matches(vec![
        String::from("id-1"),
        String::from("id-2"),
    ]));
    assert_eq!(r, Ok(String::from("id-1")));
}

#[test]
fn rejected_or_unanswered_lookup_fails() {
    assert_eq!(user_lookup_step(LookupOutcome::Rejected), Err(LookupError::Rejected));
    assert_eq!(user_lookup_step(LookupOutcome::NoResponse), Err(LookupError::NoResponse));
}
