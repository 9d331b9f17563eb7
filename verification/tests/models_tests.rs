use readwise_sync::models::{
    deserialize_published_date, deserialize_title, deserialize_word_count, Category, Location,
    PublishedDate, ReaderResponse, ReaderResult,
};
use readwise_sync::timestamp::Timestamp;

fn rendered(raw: PublishedDate) -> Option<String> {
    deserialize_published_date(&raw).map(|ts| ts.to_seconds_text())
}

#[test]
fn category_names_are_lower_case() {
    assert_eq!(Category::Article.name(), "article");
    assert_eq!(Category::Email.name(), "email");
    assert_eq!(Category::Epub.name(), "epub");
    assert_eq!(Category::Highlight.name(), "highlight");
    assert_eq!(Category::Note.name(), "note");
    assert_eq!(Category::Pdf.name(), "pdf");
    assert_eq!(Category::Rss.name(), "rss");
    assert_eq!(Category::Tweet.name(), "tweet");
    assert_eq!(Category::Video.name(), "video");
}

#[test]
fn category_of_each_name() {
    assert_eq!(Category::from_name("article"), Some(Category::Article));
    assert_eq!(Category::from_name("email"), Some(Category::Email));
    assert_eq!(Category::from_name("epub"), Some(Category::Epub));
    assert_eq!(Category::from_name("highlight"), Some(Category::Highlight));
    assert_eq!(Category::from_name("note"), Some(Category::Note));
    assert_eq!(Category::from_name("pdf"), Some(Category::Pdf));
    assert_eq!(Category::from_name("rss"), Some(Category::Rss));
    assert_eq!(Category::from_name("tweet"), Some(Category::Tweet));
    assert_eq!(Category::from_name("video"), Some(Category::Video));
}

#[test]
fn category_names_round_trip() {
    let all = [
        Category::Article,
        Category::Email,
        Category::Epub,
        Category::Highlight,
        Category::Note,
        Category::Pdf,
        Category::Rss,
        Category::Tweet,
        Category::Video,
    ];
    for category in all {
        assert_eq!(Category::from_name(category.name()), Some(category));
    }
}

#[test]
fn category_is_a_closed_enumeration() {
    assert_eq!(Category::from_name(""), None);
    assert_eq!(Category::from_name("Article"), None);
    assert_eq!(Category::from_name("ARTICLE"), None);
    assert_eq!(Category::from_name("article "), None);
    assert_eq!(Category::from_name("articles"), None);
    assert_eq!(Category::from_name("podcast"), None);
    assert_eq!(Category::from_name("archive"), None);
}

#[test]
fn location_names_are_lower_case() {
    assert_eq!(Location::Archive.name(), "archive");
    assert_eq!(Location::Feed.name(), "feed");
    assert_eq!(Location::Later.name(), "later");
    assert_eq!(Location::New.name(), "new");
    assert_eq!(Location::Shortlist.name(), "shortlist");
}

#[test]
fn location_names_round_trip() {
    let all =
        [Location::Archive, Location::Feed, Location::Later, Location::New, Location::Shortlist];
    for location in all {
        assert_eq!(Location::from_name(location.name()), Some(location));
    }
}

#[test]
fn location_is_a_closed_enumeration() {
    assert_eq!(Location::from_name(""), None);
    assert_eq!(Location::from_name("New"), None);
    assert_eq!(Location::from_name("inbox"), None);
    assert_eq!(Location::from_name("article"), None);
    assert_eq!(Location::from_name("ne"), None);
}

#[test]
fn title_defaults_to_untitled() {
    assert_eq!(deserialize_title(None), "Untitled");
}

#[test]
fn title_is_kept_where_present() {
    assert_eq!(deserialize_title(Some("On Liberty".to_string())), "On Liberty");
    assert_eq!(deserialize_title(Some(String::new())), "");
    assert_eq!(deserialize_title(Some("Untitled".to_string())), "Untitled");
}

#[test]
fn word_count_defaults_to_zero() {
    assert_eq!(deserialize_word_count(None), 0);
}

#[test]
fn word_count_is_kept_where_present() {
    assert_eq!(deserialize_word_count(Some(1234)), 1234);
    assert_eq!(deserialize_word_count(Some(0)), 0);
    assert_eq!(deserialize_word_count(Some(-5)), -5);
    assert_eq!(deserialize_word_count(Some(i32::MAX)), i32::MAX);
    assert_eq!(deserialize_word_count(Some(i32::MIN)), i32::MIN);
}

#[test]
fn published_date_from_epoch_seconds() {
    let ts = deserialize_published_date(&PublishedDate::Number(Some(1_700_000_000))).unwrap();
    assert_eq!(ts.seconds(), 1_700_000_000);
    assert_eq!(ts.subsec_nanos(), 0);
    assert_eq!(ts.to_seconds_text(), "2023-11-14T22:13:20Z");
}

#[test]
fn published_date_from_date_only() {
    assert_eq!(
        rendered(PublishedDate::Text("2026-01-30".to_string())),
        Some("2026-01-30T00:00:00Z".to_string())
    );
    let ts = deserialize_published_date(&PublishedDate::Text("2026-01-30".to_string())).unwrap();
    assert_eq!(ts.seconds(), 1_769_731_200);
}

#[test]
fn published_date_from_full_datetime() {
    let ts = deserialize_published_date(&PublishedDate::Text(
        "2024-05-06T07:08:09+02:00".to_string(),
    ))
    .unwrap();
    assert_eq!(ts.to_seconds_text(), "2024-05-06T05:08:09Z");
    assert_eq!(Some(ts), Timestamp::parse_datetime("2024-05-06T05:08:09Z"));
}

#[test]
fn published_date_null_is_absent() {
    assert_eq!(deserialize_published_date(&PublishedDate::Null), None);
}

#[test]
fn published_date_unparseable_text_is_absent() {
    assert_eq!(deserialize_published_date(&PublishedDate::Text("not-a-date".to_string())), None);
    assert_eq!(deserialize_published_date(&PublishedDate::Text(String::new())), None);
    assert_eq!(deserialize_published_date(&PublishedDate::Text("2026-02-30".to_string())), None);
    assert_eq!(deserialize_published_date(&PublishedDate::Text("1700000000".to_string())), None);
}

#[test]
fn published_date_out_of_range_epoch_is_absent() {
    assert_eq!(deserialize_published_date(&PublishedDate::Number(Some(i64::MAX))), None);
    assert_eq!(deserialize_published_date(&PublishedDate::Number(Some(i64::MIN))), None);
    assert_eq!(
        deserialize_published_date(&PublishedDate::Number(Some(8_210_266_876_800))),
        None
    );
    assert!(deserialize_published_date(&PublishedDate::Number(Some(8_210_266_876_799))).is_some());
}

#[test]
fn published_date_of_another_shape_is_absent() {
    assert_eq!(deserialize_published_date(&PublishedDate::Number(None)), None);
    assert_eq!(deserialize_published_date(&PublishedDate::Other), None);
}

#[test]
fn published_date_before_the_epoch() {
    assert_eq!(
        rendered(PublishedDate::Number(Some(-1))),
        Some("1969-12-31T23:59:59Z".to_string())
    );
    assert_eq!(rendered(PublishedDate::Number(Some(0))), Some("1970-01-01T00:00:00Z".to_string()));
}

#[test]
fn a_bad_published_date_leaves_the_rest_of_the_record() {
    let raw_title: Option<String> = Some("Kept".to_string());
    let raw_words: Option<i32> = Some(12);
    let record = ReaderResult {
        author: None,
        category: Category::Article,
        content: None,
        created_at: Timestamp::from_epoch_seconds(1).unwrap(),
        id: "doc".to_string(),
        image_url: None,
        location: None,
        notes: None,
        parent_id: None,
        published_date: deserialize_published_date(&PublishedDate::Text("not-a-date".to_string())),
        reading_progress: 0.0f32.to_bits(),
        site_name: None,
        source: None,
        source_url: None,
        summary: None,
        tags: None,
        title: deserialize_title(raw_title),
        updated_at: None,
        readwise_url: None,
        word_count: deserialize_word_count(raw_words),
    };
    assert_eq!(record.published_date, None);
    assert_eq!(record.title, "Kept");
    assert_eq!(record.word_count, 12);
}

#[test]
fn a_page_holds_its_documents_in_order() {
    let make = |id: &str| ReaderResult {
        author: None,
        category: Category::Rss,
        content: None,
        created_at: Timestamp::from_epoch_seconds(0).unwrap(),
        id: id.to_string(),
        image_url: None,
        location: Some(Location::Feed),
        notes: None,
        parent_id: None,
        published_date: None,
        reading_progress: 0.25f32.to_bits(),
        site_name: None,
        source: None,
        source_url: None,
        summary: None,
        tags: Some(serde_json::Value::Bool(true)),
        title: deserialize_title(None),
        updated_at: None,
        readwise_url: None,
        word_count: deserialize_word_count(None),
    };
    let page = ReaderResponse {
        total_remaining: 2,
        next_page_cursor: None,
        results: vec![make("a"), make("b")],
    };
    assert_eq!(page.results.len(), 2);
    assert_eq!(page.results[0].id, "a");
    assert_eq!(page.results[1].id, "b");
    assert_eq!(f32::from_bits(page.results[0].reading_progress), 0.25);
    assert_eq!(page.clone(), page);
}
