use rradio::podcast::episodes_from_rss;

const FEED: &str = "<rss version=\"2.0\"><channel><title>The Archers &amp; Friends</title><description><![CDATA[Daily drama]]></description><item><title>Mon 1 Jan</title><itunes:subtitle>Episode one</itunes:subtitle><itunes:summary><![CDATA[All is well]]></itunes:summary><enclosure url=\"https://x.org/1.mp3\" length=\"1\"/></item><item><title>No audio</title></item><item><title>Tue 2 Jan</title><enclosure url=\"https://x.org/2.mp3\" length=\"2\"/></item></channel></rss>";

#[test]
fn the_episodes_of_a_feed_are_read_in_order() {
    let e = episodes_from_rss(FEED);
    assert_eq!(e.channel_title, "The Archers & Friends");
    assert_eq!(e.description, "Daily drama");
    assert_eq!(e.data_for_multiple_episodes.len(), 2);
    let first = &e.data_for_multiple_episodes[0];
    assert_eq!(first.date, "Mon 1 Jan");
    assert_eq!(first.url, "https://x.org/1.mp3");
    assert_eq!(first.subtitle, "Episode one");
    assert_eq!(first.summary, "All is well");
    let second = &e.data_for_multiple_episodes[1];
    assert_eq!(second.date, "Tue 2 Jan");
    assert_eq!(second.url, "https://x.org/2.mp3");
    assert_eq!(second.subtitle, "");
}

#[test]
fn a_feed_without_items_has_no_episodes() {
    let e = episodes_from_rss("<rss version=\"2.0\"><title>T</title></rss>");
    assert_eq!(e.channel_title, "T");
    assert!(e.data_for_multiple_episodes.is_empty());
}
