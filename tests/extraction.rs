use ytrss::report::finish_item;
use ytrss::{AppError, HTMLParser, LinkAttrs};

#[test]
fn test_extract_rss_feed_url() {
    let html = r#"
        <html>
            <head>
                <link rel="alternate" type="application/rss+xml" title="RSS" href="https://www.youtube.com/feeds/videos.xml?channel_id=1234">
            </head>
        </html>
        "#;

    let result = HTMLParser::extract_feed_url(html);
    assert!(result.is_ok());
    assert_eq!(
        result.unwrap(),
        "https://www.youtube.com/feeds/videos.xml?channel_id=1234"
    );
}

#[test]
fn test_extract_rss_feed_url_not_found() {
    let html = "<html><head></head></html>";
    let result = HTMLParser::extract_feed_url(html);
    assert!(result.is_err());
}

#[test]
fn first_of_two_feed_links_wins() {
    let html = r#"<html><head>
        <link type="application/rss+xml" title="RSS" href="https://a.example/feed">
        <link type="application/rss+xml" title="RSS" href="https://b.example/feed">
        </head></html>"#;
    assert_eq!(HTMLParser::extract_feed_url(html).unwrap(), "https://a.example/feed");
}

#[test]
fn extraction_is_repeatable() {
    let html = r#"<link type="application/rss+xml" title="RSS" href="x">"#;
    let first = HTMLParser::extract_feed_url(html).unwrap();
    let second = HTMLParser::extract_feed_url(html).unwrap();
    assert_eq!(first, second);
    assert_eq!(first, "x");
}

#[test]
fn wrong_type_is_not_a_feed() {
    let html = r#"<link type="application/atom+xml" title="RSS" href="x">"#;
    assert!(matches!(HTMLParser::extract_feed_url(html), Err(AppError::FeedNotFound)));
}

#[test]
fn wrong_title_is_not_a_feed() {
    let html = r#"<link type="application/rss+xml" title="rss" href="x">"#;
    assert!(matches!(HTMLParser::extract_feed_url(html), Err(AppError::FeedNotFound)));
}

#[test]
fn feed_link_without_href_is_not_found() {
    let html = r#"<link type="application/rss+xml" title="RSS">
        <link type="application/rss+xml" title="RSS" href="later">"#;
    assert!(matches!(HTMLParser::extract_feed_url(html), Err(AppError::FeedNotFound)));
}

#[test]
fn non_matching_link_is_skipped() {
    let html = r#"<link rel="stylesheet" href="style.css">
        <link type="application/rss+xml" title="RSS" href="feed">"#;
    assert_eq!(HTMLParser::extract_feed_url(html).unwrap(), "feed");
}

fn link(title: Option<&str>, kind: Option<&str>, href: Option<&str>) -> LinkAttrs {
    LinkAttrs {
        title: title.map(String::from),
        kind: kind.map(String::from),
        href: href.map(String::from),
    }
}

#[test]
fn selection_over_given_links() {
    let links = vec![
        link(Some("RSS"), Some("text/html"), Some("a")),
        link(Some("RSS"), Some("application/rss+xml"), Some("b")),
        link(Some("RSS"), Some("application/rss+xml"), Some("c")),
    ];
    assert_eq!(HTMLParser::select_feed(&links).unwrap(), "b");
    assert!(matches!(HTMLParser::select_feed(&Vec::new()), Err(AppError::FeedNotFound)));
    assert!(HTMLParser::is_feed_link(&link(Some("RSS"), Some("application/rss+xml"), None)));
    assert!(!HTMLParser::is_feed_link(&link(None, Some("application/rss+xml"), Some("a"))));
}

#[test]
fn scenario_channel_page_gives_feed() {
    let page = r#"<link rel="alternate" type="application/rss+xml" title="RSS" href="https://www.youtube.com/feeds/videos.xml?channel_id=1234">"#;
    assert!(ytrss::YoutubeUrl::new("https://www.youtube.com/channel/1234").is_ok());
    let result = finish_item(Ok(page.to_string()));
    assert_eq!(result.unwrap(), "https://www.youtube.com/feeds/videos.xml?channel_id=1234");
}

#[test]
fn failed_request_ends_the_item() {
    let result = finish_item(Err(AppError::HttpStatusError(500)));
    assert!(matches!(result, Err(AppError::HttpStatusError(500))));
}
