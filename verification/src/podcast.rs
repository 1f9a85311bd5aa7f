//! Podcasts: the list kept in the podcast file and the episodes read from a podcast's RSS feed.
use vstd::prelude::*;
use crate::extract_html::{extract, extract_spec};
use crate::html_helpers::{decode_html, decode_html_spec};
use crate::text::{contains, split_at_pattern, split_on_str, str_contains, views_of};

verus! {

/// URL of RSS & title as stored in the podcast list file, one per station.
#[derive(Debug)]
pub struct PodcastDataFromToml {
    pub title: String,
    pub url: String,
}

/// data downloaded from internet for a single podcast in the downloaded series of podcasts
#[derive(Debug)]
pub struct DataForOnePodcast {
    pub date: String,
    pub subtitle: String,
    pub summary: String,
    pub url: String,
}

/// data downloaded from internet for the downloaded series of podcasts
#[derive(Debug)]
pub struct EpisodeDataForOnePodcastDownloaded {
    pub channel_title: String,
    pub description: String,
    pub data_for_multiple_episodes: Vec<DataForOnePodcast>,
}

/// The list of the podcasts wanted.
#[derive(Debug)]
pub struct PodcastDataAllStations {
    pub podcast_data_for_all_stations: Vec<PodcastDataFromToml>,
}


/// The pieces of a feed, cut at each `<item>`, that describe an episode: those holding
/// `<enclosure url=`, in order.
pub open spec fn episode_pieces(pieces: Seq<Seq<char>>) -> Seq<Seq<char>>
    decreases pieces.len(),
{
    if pieces.len() == 0 {
        Seq::empty()
    } else {
        let init = episode_pieces(pieces.drop_last());
        if contains(pieces.last(), "<enclosure url="@) {
            init.push(pieces.last())
        } else {
            init
        }
    }
}

/// The episodes that an RSS feed describes.
pub open spec fn episodes_of_feed(feed: Seq<char>) -> Seq<Seq<char>> {
    episode_pieces(split_at_pattern(feed, "<item>"@))
}

/// The data of one episode as it is read from its part of the feed: the title as its date,
/// the enclosure's URL, the iTunes subtitle and the iTunes summary.
pub open spec fn is_episode_data(d: DataForOnePodcast, episode: Seq<char>) -> bool {
    &&& d.date@ == extract_spec(episode, "<title>"@, "</title>"@)
    &&& d.url@ == extract_spec(episode, "<enclosure url=\""@, "\" length"@)
    &&& d.subtitle@ == extract_spec(episode, "<itunes:subtitle>"@, "</itunes:subtitle>"@)
    &&& d.summary@ == extract_spec(episode, "<itunes:summary><![CDATA["@, "]]>"@)
}

/// The data of one episode, read from its part of the feed.
fn episode_data(episode: &str) -> (r: DataForOnePodcast)
    ensures
        is_episode_data(r, episode@),
{
    DataForOnePodcast {
        date: String::from_str(extract(episode, "<title>", "</title>")),
        url: String::from_str(extract(episode, "<enclosure url=\"", "\" length")),
        subtitle: String::from_str(extract(episode, "<itunes:subtitle>", "</itunes:subtitle>")),
        summary: String::from_str(extract(episode, "<itunes:summary><![CDATA[", "]]>")),
    }
}

/// Reads the episodes of a podcast from its RSS feed: the channel's title (HTML decoded),
/// its description, and the data of each episode that has an enclosure, in order.
pub fn episodes_from_rss(podcast_string: &str) -> (r: EpisodeDataForOnePodcastDownloaded)
    ensures
        r.channel_title@ == decode_html_spec(extract_spec(podcast_string@, "<title>"@, "</title>"@)),
        r.description@ == extract_spec(
            podcast_string@,
            "<description><![CDATA["@,
            "]]></description>"@,
        ),
        r.data_for_multiple_episodes@.len() == episodes_of_feed(podcast_string@).len(),
        forall|k: int|
            0 <= k < r.data_for_multiple_episodes@.len() ==> is_episode_data(
                #[trigger] r.data_for_multiple_episodes@[k],
                episodes_of_feed(podcast_string@)[k],
            ),
{
    let channel_title = decode_html(extract(podcast_string, "<title>", "</title>"));
    let description = String::from_str(extract(podcast_string, "<description><![CDATA[", "]]></description>"));
    proof {
        reveal_strlit("<item>");
    }
    let pieces = split_on_str(podcast_string, "<item>");
    let ghost all = views_of(pieces@);
    let mut episodes: Vec<DataForOnePodcast> = Vec::new();
    let mut i: usize = 0;
    while i < pieces.len()
        invariant
            i <= pieces@.len(),
            all == views_of(pieces@),
            all == split_at_pattern(podcast_string@, "<item>"@),
            episodes@.len() == episode_pieces(all.take(i as int)).len(),
            forall|k: int|
                0 <= k < episodes@.len() ==> is_episode_data(
                    #[trigger] episodes@[k],
                    episode_pieces(all.take(i as int))[k],
                ),
        decreases pieces@.len() - i,
    {
        let ghost before = episode_pieces(all.take(i as int));
        assert(all.take(i + 1).drop_last() =~= all.take(i as int));
        assert(all.take(i + 1).last() == pieces@[i as int]@);
        if str_contains(pieces[i].as_str(), "<enclosure url=") {
            let d = episode_data(pieces[i].as_str());
            episodes.push(d);
            assert(episode_pieces(all.take(i + 1)) == before.push(pieces@[i as int]@));
        } else {
            assert(episode_pieces(all.take(i + 1)) == before);
        }
        i = i + 1;
    }
    assert(all.take(i as int) =~= all);
    EpisodeDataForOnePodcastDownloaded {
        channel_title,
        description,
        data_for_multiple_episodes: episodes,
    }
}


/// What a failure to read the file of stored podcasts means: when there is no such file
/// (operating system error 2) nothing has been stored yet, which is no error; any other
/// failure is reported with the error as written.
pub fn podcast_file_read_failure(raw_os_error: Option<i32>, error_text: &str) -> (r: Result<(), String>)
    ensures
        raw_os_error == Some(2i32) ==> r is Ok,
        raw_os_error != Some(2i32) ==> (r matches Err(e) && e@ == "When looking for stored podcast data got error "@
            + error_text@ + ")"@),
{
    if raw_os_error == Some(2i32) {
        return Ok(());
    }
    let mut e = String::from_str("When looking for stored podcast data got error ");
    e.append(error_text);
    e.append(")");
    Err(e)
}

} // verus!
