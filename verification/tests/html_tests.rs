use rradio::extract_html::extract;
use rradio::html_helpers::{decode_html, is_rss};

#[test]
fn extract_takes_the_text_between_markers() {
    assert_eq!(extract("a<title>News</title>b", "<title>", "</title>"), "News");
    assert_eq!(extract("<title><p>News</p></title>", "<title>", "</title>"), "News");
    assert_eq!(extract("no markers", "<title>", "</title>"), "");
    assert_eq!(extract("<title>unfinished", "<title>", "</title>"), "");
}

#[test]
fn html_entities_are_decoded() {
    assert_eq!(decode_html("Tom &amp; Jerry"), "Tom & Jerry");
    assert_eq!(decode_html("&#233;t&#233;"), "été");
}

#[test]
fn invalid_html_is_kept_as_it_is() {
    assert_eq!(decode_html("a &bogus; b"), "a &bogus; b");
}

#[test]
fn rss_feeds_are_recognised_by_their_markers() {
    let feed = "<rss version=\"2.0\"><channel><title>The Archers &amp; Co</title></channel></rss>";
    assert_eq!(is_rss(feed), Some("The Archers & Co".to_string()));
    assert_eq!(is_rss("<html><title>x</title></html>"), None);
    assert_eq!(is_rss("<feed xmlns:atom=\"x\">"), Some(String::new()));
}
