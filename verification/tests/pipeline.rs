use announcer::plan_run;
use announcer::render::{render, watch_url};
use announcer::sink::{decide_action, DestinationMessage, ReconcileAction};
use announcer::source::{
    build_upcoming_streams, pick_thumbnail, resolve_channel_icon, video_id_list, FetchError,
    SearchItem, ThumbnailSet, UpcomingStream, VideoDetail,
};
use announcer::time::{format_start_time, localized_start_time, padded, u32_digits, year_string,
    DateParts};

fn thumbs(
    maxres: Option<&str>,
    high: Option<&str>,
    medium: Option<&str>,
    default: Option<&str>,
    standard: Option<&str>,
) -> ThumbnailSet {
    ThumbnailSet {
        maxres: maxres.map(|s| s.to_string()),
        high: high.map(|s| s.to_string()),
        medium: medium.map(|s| s.to_string()),
        default: default.map(|s| s.to_string()),
        standard: standard.map(|s| s.to_string()),
    }
}

fn full_item(id: &str, title: &str, published: &str, thumb: &str) -> SearchItem {
    SearchItem {
        video_id: Some(id.to_string()),
        title: Some(title.to_string()),
        published_at: Some(published.to_string()),
        thumbnails: Some(thumbs(None, Some(thumb), None, None, None)),
    }
}

fn stream(id: &str, title: &str, start: &str, thumb: &str, icon: &str) -> UpcomingStream {
    UpcomingStream {
        id: id.to_string(),
        title: title.to_string(),
        published_at: "2024-01-01T00:00:00Z".to_string(),
        thumbnail_url: thumb.to_string(),
        start_time: start.to_string(),
        channel_icon_url: icon.to_string(),
    }
}

#[test]
fn render_preserves_count_and_order() {
    let streams = vec![
        stream("abc", "first", "t1", "u1", "icon"),
        stream("def", "second", "t2", "u2", "icon"),
        stream("ghi", "third", "t3", "u3", "icon"),
    ];
    let cards = render(&streams);
    assert_eq!(cards.len(), 3);
    assert_eq!(cards[0].title, "first");
    assert_eq!(cards[1].title, "second");
    assert_eq!(cards[2].title, "third");
    assert_eq!(cards[0].url, "https://www.youtube.com/watch?v=abc");
    assert_eq!(cards[1].url, "https://www.youtube.com/watch?v=def");
    assert_eq!(cards[2].url, "https://www.youtube.com/watch?v=ghi");
}

#[test]
fn render_card_fields_derived() {
    let streams = vec![stream("xyz", "title here", "2024年05月01日 20時00分", "thumb-url", "icon")];
    let cards = render(&streams);
    assert_eq!(cards.len(), 1);
    assert_eq!(cards[0].thumbnail_url, "thumb-url");
    assert_eq!(cards[0].image_url, "thumb-url");
    assert_eq!(cards[0].field_name, "開始時刻");
    assert_eq!(cards[0].field_value, "2024年05月01日 20時00分");
}

#[test]
fn render_empty_is_empty() {
    let cards = render(&Vec::new());
    assert_eq!(cards.len(), 0);
}

#[test]
fn watch_url_built_from_id() {
    assert_eq!(watch_url(&"dQw4w9WgXcQ".to_string()), "https://www.youtube.com/watch?v=dQw4w9WgXcQ");
}

#[test]
fn thumbnail_priority_order() {
    let t = thumbs(Some("m"), Some("h"), Some("me"), Some("d"), Some("s"));
    assert_eq!(pick_thumbnail(&t), Some("m".to_string()));
    let t = thumbs(None, Some("h"), Some("me"), Some("d"), Some("s"));
    assert_eq!(pick_thumbnail(&t), Some("h".to_string()));
    let t = thumbs(None, None, Some("me"), Some("d"), Some("s"));
    assert_eq!(pick_thumbnail(&t), Some("me".to_string()));
    let t = thumbs(None, None, None, Some("d"), Some("s"));
    assert_eq!(pick_thumbnail(&t), Some("d".to_string()));
    let t = thumbs(None, None, None, None, Some("s"));
    assert_eq!(pick_thumbnail(&t), Some("s".to_string()));
}

#[test]
fn thumbnail_empty_set_fails() {
    let t = thumbs(None, None, None, None, None);
    assert_eq!(pick_thumbnail(&t), None);
    assert_eq!(
        resolve_channel_icon(&Some(thumbs(None, None, None, None, None))),
        Err(FetchError::MissingThumbnail)
    );
}

#[test]
fn thumbnail_skips_absent_variants() {
    let t = thumbs(None, None, Some("me"), None, Some("s"));
    assert_eq!(pick_thumbnail(&t), Some("me".to_string()));
    let t = thumbs(Some("m"), None, None, None, Some("s"));
    assert_eq!(pick_thumbnail(&t), Some("m".to_string()));
}

#[test]
fn channel_icon_missing_channel() {
    assert_eq!(resolve_channel_icon(&None), Err(FetchError::NoChannel));
}

#[test]
fn digits_and_padding() {
    assert_eq!(u32_digits(0), "0");
    assert_eq!(u32_digits(2024), "2024");
    assert_eq!(padded(5, 2), "05");
    assert_eq!(padded(12, 2), "12");
    assert_eq!(padded(7, 4), "0007");
    assert_eq!(padded(12345, 4), "12345");
    assert_eq!(padded(0, 4), "0000");
    assert_eq!(year_string(802), "0802");
    assert_eq!(year_string(-44), "-0044");
    assert_eq!(year_string(0), "0000");
    assert_eq!(year_string(i32::MIN), "-2147483648");
}

#[test]
fn format_start_time_exact() {
    let d = DateParts { year: 2024, month: 5, day: 1, hour: 20, minute: 0 };
    assert_eq!(format_start_time(&d), "2024年05月01日 20時00分");
    let d = DateParts { year: 2025, month: 12, day: 31, hour: 3, minute: 59 };
    assert_eq!(format_start_time(&d), "2025年12月31日 03時59分");
}

#[test]
fn localized_time_parses_and_rewrites() {
    let t = localized_start_time("2025-06-01T10:00:00Z").expect("timestamp should parse");
    assert_ne!(t, "2025-06-01T10:00:00Z");
    assert!(t.contains("年"));
    assert!(t.contains("月"));
    assert!(t.contains("日 "));
    assert!(t.contains("時"));
    assert!(t.ends_with("分"));
}

#[test]
fn localized_time_rejects_garbage() {
    assert_eq!(localized_start_time("not-a-time"), None);
    assert_eq!(localized_start_time(""), None);
    assert_eq!(localized_start_time("2025-06-01"), None);
}

#[test]
fn video_id_list_joins_in_order() {
    let items = vec![
        full_item("a", "t", "p", "u"),
        full_item("b", "t", "p", "u"),
        full_item("c", "t", "p", "u"),
    ];
    assert_eq!(video_id_list(&items), Ok("a,b,c".to_string()));
    let one = vec![full_item("only", "t", "p", "u")];
    assert_eq!(video_id_list(&one), Ok("only".to_string()));
    assert_eq!(video_id_list(&Vec::new()), Ok(String::new()));
}

#[test]
fn video_id_list_missing_id() {
    let mut items = vec![full_item("a", "t", "p", "u")];
    items.push(SearchItem {
        video_id: None,
        title: Some("t".to_string()),
        published_at: Some("p".to_string()),
        thumbnails: Some(thumbs(None, Some("u"), None, None, None)),
    });
    assert_eq!(video_id_list(&items), Err(FetchError::MissingVideoId));
}

#[test]
fn scenario_two_streams_same_order() {
    let channel = Some(thumbs(None, Some("icon-url"), None, None, None));
    let items = Some(vec![
        full_item("vid1", "stream one", "2025-05-20T00:00:00Z", "thumb1"),
        full_item("vid2", "stream two", "2025-05-21T00:00:00Z", "thumb2"),
    ]);
    let details = Some(vec![
        VideoDetail { scheduled_start_time: Some("2025-06-01T10:00:00Z".to_string()) },
        VideoDetail { scheduled_start_time: Some("2025-06-02T08:30:00Z".to_string()) },
    ]);
    let streams = build_upcoming_streams(&channel, &items, &details).expect("batch should build");
    assert_eq!(streams.len(), 2);
    assert_eq!(streams[0].id, "vid1");
    assert_eq!(streams[1].id, "vid2");
    assert_eq!(streams[0].title, "stream one");
    assert_eq!(streams[1].title, "stream two");
    assert_eq!(streams[0].thumbnail_url, "thumb1");
    assert_eq!(streams[1].thumbnail_url, "thumb2");
    assert_eq!(streams[0].channel_icon_url, "icon-url");
    assert_eq!(streams[1].channel_icon_url, "icon-url");
    let t1 = localized_start_time("2025-06-01T10:00:00Z").unwrap();
    let t2 = localized_start_time("2025-06-02T08:30:00Z").unwrap();
    assert_eq!(streams[0].start_time, t1);
    assert_eq!(streams[1].start_time, t2);
    let cards = render(&streams);
    assert_eq!(cards.len(), 2);
    assert_eq!(cards[0].field_value, t1);
    assert_eq!(cards[1].field_value, t2);
    // Against an empty channel, reconciliation posts a new message.
    assert_eq!(decide_action(&None, 7), ReconcileAction::Post);
}

#[test]
fn scenario_publisher_owned_latest_is_edited() {
    let latest = Some(DestinationMessage { id: 42, author_webhook_id: Some(7) });
    assert_eq!(decide_action(&latest, 7), ReconcileAction::Edit(42));
}

#[test]
fn scenario_missing_start_time_aborts_fetch() {
    let channel = Some(thumbs(None, Some("icon-url"), None, None, None));
    let items = Some(vec![full_item("vid1", "stream one", "p", "thumb1")]);
    let details = Some(vec![VideoDetail { scheduled_start_time: None }]);
    assert_eq!(
        build_upcoming_streams(&channel, &items, &details).unwrap_err(),
        FetchError::MissingStartTime
    );
    // The orchestrator swallows the failure: no cards, reconcile skipped.
    assert!(plan_run(Err(FetchError::MissingStartTime)).is_none());
}

#[test]
fn build_rejects_unparseable_timestamp() {
    let channel = Some(thumbs(Some("icon-url"), None, None, None, None));
    let items = Some(vec![full_item("vid1", "t", "p", "u")]);
    let details = Some(vec![VideoDetail { scheduled_start_time: Some("soon".to_string()) }]);
    assert_eq!(
        build_upcoming_streams(&channel, &items, &details).unwrap_err(),
        FetchError::UnparseableTimestamp
    );
}

#[test]
fn build_rejects_count_mismatch() {
    let channel = Some(thumbs(Some("icon-url"), None, None, None, None));
    let items = Some(vec![
        full_item("vid1", "t", "p", "u"),
        full_item("vid2", "t", "p", "u"),
    ]);
    let details = Some(vec![VideoDetail {
        scheduled_start_time: Some("2025-06-01T10:00:00Z".to_string()),
    }]);
    assert_eq!(
        build_upcoming_streams(&channel, &items, &details).unwrap_err(),
        FetchError::CountMismatch
    );
}

#[test]
fn build_rejects_missing_structures() {
    let channel = Some(thumbs(Some("icon-url"), None, None, None, None));
    assert_eq!(
        build_upcoming_streams(&channel, &None, &Some(Vec::new())).unwrap_err(),
        FetchError::NoSearchResults
    );
    assert_eq!(
        build_upcoming_streams(&channel, &Some(Vec::new()), &None).unwrap_err(),
        FetchError::NoSearchResults
    );
    assert_eq!(
        build_upcoming_streams(&None, &Some(Vec::new()), &Some(Vec::new())).unwrap_err(),
        FetchError::NoChannel
    );
}

#[test]
fn build_rejects_bad_items() {
    let channel = Some(thumbs(Some("icon-url"), None, None, None, None));
    let details = Some(vec![VideoDetail {
        scheduled_start_time: Some("2025-06-01T10:00:00Z".to_string()),
    }]);
    let mut item = full_item("vid1", "t", "p", "u");
    item.title = None;
    assert_eq!(
        build_upcoming_streams(&channel, &Some(vec![item]), &details).unwrap_err(),
        FetchError::MissingSnippet
    );
    let mut item = full_item("vid1", "t", "p", "u");
    item.video_id = None;
    assert_eq!(
        build_upcoming_streams(&channel, &Some(vec![item]), &details).unwrap_err(),
        FetchError::MissingVideoId
    );
    let mut item = full_item("vid1", "t", "p", "u");
    item.thumbnails = Some(thumbs(None, None, None, None, None));
    assert_eq!(
        build_upcoming_streams(&channel, &Some(vec![item]), &details).unwrap_err(),
        FetchError::MissingThumbnail
    );
}

#[test]
fn empty_batch_builds_and_still_reconciles() {
    let channel = Some(thumbs(Some("icon-url"), None, None, None, None));
    let streams = build_upcoming_streams(&channel, &Some(Vec::new()), &Some(Vec::new()))
        .expect("empty batch should build");
    assert_eq!(streams.len(), 0);
    let planned = plan_run(Ok(streams));
    let cards = planned.expect("an empty batch is still published");
    assert_eq!(cards.len(), 0);
    // Reconciliation proceeds with zero cards.
    assert_eq!(decide_action(&None, 9), ReconcileAction::Post);
    let latest = Some(DestinationMessage { id: 5, author_webhook_id: Some(9) });
    assert_eq!(decide_action(&latest, 9), ReconcileAction::Edit(5));
}

#[test]
fn non_publisher_latest_gets_new_post() {
    let latest = Some(DestinationMessage { id: 42, author_webhook_id: Some(8) });
    assert_eq!(decide_action(&latest, 7), ReconcileAction::Post);
    let human = Some(DestinationMessage { id: 43, author_webhook_id: None });
    assert_eq!(decide_action(&human, 7), ReconcileAction::Post);
}

#[test]
fn plan_run_maps_batch_to_cards() {
    let streams = vec![stream("abc", "first", "t1", "u1", "icon")];
    let cards = plan_run(Ok(streams)).expect("fetched batch is rendered");
    assert_eq!(cards.len(), 1);
    assert_eq!(cards[0].url, "https://www.youtube.com/watch?v=abc");
    assert!(plan_run(Err(FetchError::NoChannel)).is_none());
}
