//! What the player does with the events of its main loop: the tags of a stream, requests
//! from the web page, the ticker and the keyboard's play/pause, and the scrolling of the
//! screen's lines after each event.
use vstd::prelude::*;
use crate::get_channel_details::{SourceType, file_url, file_url_exec};
use crate::lcd::{RunningStatus, ScrollData, lcd_encode, scroll_stepped, updated_to_show};
use crate::lcd_screen::{get_vol_string, vol_text};
use crate::player_status::{
    GstState, NUMBER_OF_CHANNEL_SLOTS, NUMBER_OF_POSSIBLE_CHANNELS, PODCAST_CHANNEL_NUMBER, PlayerStatus,
    START_UP_DING_CHANNEL_NUMBER,
};
use crate::read_config::Config;
use crate::text::{byte_len, byte_length, chars_of, str_eq, str_starts_with, starts_with, trim, trim_exec};

verus! {

/// The name of a station as it should be shown: two stations send a misspelt name.
pub open spec fn corrected_organisation(organization: Seq<char>) -> Seq<char> {
    if organization == "LaPremiere"@ {
        "La Première"@
    } else if organization == "Nostalgie Chansons fran??aises"@ {
        "Nostalgie Chansons françaises"@
    } else {
        organization
    }
}

/// The name of a station as it should be shown (see `corrected_organisation`).
pub fn correct_organisation(organization: &str) -> (r: String)
    ensures
        r@ == corrected_organisation(organization@),
{
    if str_eq(organization, "LaPremiere") {
        String::from_str("La Première")
    } else if str_eq(organization, "Nostalgie Chansons fran??aises") {
        String::from_str("Nostalgie Chansons françaises")
    } else {
        String::from_str(organization)
    }
}

/// A stream sent the name of its station: when it differs from the name held, it becomes
/// the channel's name and is shown on line 2.
pub fn record_organisation_tag(status_of_rradio: &mut PlayerStatus, organization: &str)
    requires
        old(status_of_rradio).wf(),
    ensures
        final(status_of_rradio).wf(),
        final(status_of_rradio).channel_number == old(status_of_rradio).channel_number,
        ({
            let name = corrected_organisation(organization@);
            if old(status_of_rradio).current().channel_data.organisation@ != name {
                &&& final(status_of_rradio).current().channel_data.organisation@ == name
                &&& updated_to_show(final(status_of_rradio).line_2_data, old(status_of_rradio).line_2_data, name)
            } else {
                &&& final(status_of_rradio).current().channel_data.organisation == old(status_of_rradio).current().channel_data.organisation
                &&& final(status_of_rradio).line_2_data == old(status_of_rradio).line_2_data
            }
        }),
        final(status_of_rradio).current().channel_data.station_url == old(status_of_rradio).current().channel_data.station_url,
        final(status_of_rradio).current().channel_data.source_type == old(status_of_rradio).current().channel_data.source_type,
        final(status_of_rradio).current().index_to_current_track == old(status_of_rradio).current().index_to_current_track,
        forall|i: int|
            0 <= i < NUMBER_OF_CHANNEL_SLOTS && i != old(status_of_rradio).channel_number
                ==> #[trigger] final(status_of_rradio).position_and_duration@[i]
                == old(status_of_rradio).position_and_duration@[i],
        final(status_of_rradio).running_status == old(status_of_rradio).running_status,
{
    let name = correct_organisation(organization);
    let channel = status_of_rradio.channel_number;
    if !str_eq(status_of_rradio.position_and_duration[channel].channel_data.organisation.as_str(), name.as_str()) {
        status_of_rradio.position_and_duration[channel].channel_data.organisation = name.clone();
        status_of_rradio.line_2_data.update_if_changed(name.as_str());
    }
}

/// A stream sent the title of what it plays: it is shown on lines 3 and 4.
pub fn record_title_tag(status_of_rradio: &mut PlayerStatus, title: &str)
    ensures
        updated_to_show(final(status_of_rradio).line_34_data, old(status_of_rradio).line_34_data, title@),
        final(status_of_rradio).line_2_data == old(status_of_rradio).line_2_data,
        final(status_of_rradio).position_and_duration == old(status_of_rradio).position_and_duration,
        final(status_of_rradio).channel_number == old(status_of_rradio).channel_number,
        final(status_of_rradio).running_status == old(status_of_rradio).running_status,
{
    status_of_rradio.line_34_data.update_if_changed(title);
}

/// A stream sent the name of the artist: when it differs from the one held, it is kept.
/// The result says whether line 2 is to be made again: the artist changed and it is the
/// podcast channel or the artist is not empty.
pub fn record_artist_tag(status_of_rradio: &mut PlayerStatus, artist: &str) -> (remake_line2: bool)
    requires
        old(status_of_rradio).wf(),
    ensures
        final(status_of_rradio).wf(),
        final(status_of_rradio).channel_number == old(status_of_rradio).channel_number,
        old(status_of_rradio).current().artist@ != artist@ ==> {
            &&& final(status_of_rradio).current().artist@ == artist@
            &&& remake_line2 == (old(status_of_rradio).channel_number == PODCAST_CHANNEL_NUMBER || artist@.len() > 0)
        },
        old(status_of_rradio).current().artist@ == artist@ ==> {
            &&& final(status_of_rradio).current().artist == old(status_of_rradio).current().artist
            &&& !remake_line2
        },
        final(status_of_rradio).current().channel_data == old(status_of_rradio).current().channel_data,
        final(status_of_rradio).current().index_to_current_track == old(status_of_rradio).current().index_to_current_track,
        forall|i: int|
            0 <= i < NUMBER_OF_CHANNEL_SLOTS && i != old(status_of_rradio).channel_number
                ==> #[trigger] final(status_of_rradio).position_and_duration@[i]
                == old(status_of_rradio).position_and_duration@[i],
        final(status_of_rradio).line_2_data == old(status_of_rradio).line_2_data,
{
    let channel = status_of_rradio.channel_number;
    if str_eq(status_of_rradio.position_and_duration[channel].artist.as_str(), artist) {
        return false;
    }
    status_of_rradio.position_and_duration[channel].artist = String::from_str(artist);
    channel == PODCAST_CHANNEL_NUMBER || !artist.is_empty()
}

/// The position (nanoseconds) to seek to when the web page asks to move `advance_position`
/// seconds on (or back), never past the end of the track: nothing when the track has no
/// duration, as such media cannot seek.
pub open spec fn advanced_position_spec(position: u64, duration: Option<u64>, advance_position: i64) -> Option<int> {
    match duration {
        None => None,
        Some(d) => {
            let moved = position + advance_position * 1_000_000_000;
            let saturated = if moved < 0 {
                0
            } else if moved > u64::MAX {
                u64::MAX as int
            } else {
                moved
            };
            Some(if saturated > d { d as int } else { saturated })
        },
    }
}

/// The position to seek to when the web page asks to move on or back (see
/// `advanced_position_spec`).
pub fn advanced_position(position: u64, duration: Option<u64>, advance_position: i64) -> (r: Option<u64>)
    requires
        i64::MIN <= advance_position * 1_000_000_000 <= i64::MAX,
    ensures
        match advanced_position_spec(position, duration, advance_position) {
            Some(p) => r == Some(p as u64),
            None => r is None,
        },
{
    match duration {
        None => None,
        Some(d) => {
            let step: i64 = advance_position * 1_000_000_000;
            let moved: u64 = if step >= 0 {
                let up = step as u64;
                if position > u64::MAX - up {
                    u64::MAX
                } else {
                    position + up
                }
            } else {
                let down: u64 = if step == i64::MIN {
                    0x8000_0000_0000_0000u64
                } else {
                    (-step) as u64
                };
                if down > position {
                    0
                } else {
                    position - down
                }
            };
            Some(if moved > d { d } else { moved })
        },
    }
}

/// The web page asked to remove the podcast chosen: it is removed when its index is at
/// least 1 and within the list. Says whether it was.
pub fn remove_selected_podcast(status_of_rradio: &mut PlayerStatus) -> (removed: bool)
    ensures
        ({
            let list = old(status_of_rradio).podcast_data_from_toml.podcast_data_for_all_stations@;
            let i = old(status_of_rradio).podcast_index;
            &&& removed == (0 < i && i < list.len())
            &&& removed ==> final(status_of_rradio).podcast_data_from_toml.podcast_data_for_all_stations@
                == list.remove(i as int)
            &&& !removed ==> final(status_of_rradio).podcast_data_from_toml.podcast_data_for_all_stations@ == list
        }),
        final(status_of_rradio).podcast_index == old(status_of_rradio).podcast_index,
        final(status_of_rradio).position_and_duration == old(status_of_rradio).position_and_duration,
{
    let i = status_of_rradio.podcast_index;
    if i > 0 && (i as usize) < status_of_rradio.podcast_data_from_toml.podcast_data_for_all_stations.len() {
        status_of_rradio.podcast_data_from_toml.podcast_data_for_all_stations.remove(i as usize);
        true
    } else {
        false
    }
}

/// What a text typed on the web page asks for.
#[derive(Debug)]
pub enum UserRequest {
    /// Fetch this URL (the text, trimmed): it may be a stream or a podcast's feed.
    Fetch(String),
    /// Play this channel.
    PlayChannel(usize),
    /// Nothing yet: the user may be typing a channel number, or the text is wrong.
    Ignore,
}

/// A decimal digit.
pub open spec fn is_ascii_digit(c: char) -> bool {
    '0' <= c && c <= '9'
}

/// The value of a decimal digit.
pub open spec fn digit_of(c: char) -> nat {
    (c as u32 - '0' as u32) as nat
}

/// The number that `str::parse::<usize>` reads from a text of two characters: two digits,
/// or a plus sign and a digit.
pub open spec fn two_character_number(text: Seq<char>) -> Option<nat> {
    if text.len() != 2 {
        None
    } else if is_ascii_digit(text[0]) && is_ascii_digit(text[1]) {
        Some(10 * digit_of(text[0]) + digit_of(text[1]))
    } else if text[0] == '+' && is_ascii_digit(text[1]) {
        Some(digit_of(text[1]))
    } else {
        None
    }
}

/// Works out what a text typed on the web page asks for: more than two bytes is a URL to
/// fetch; otherwise a text of two bytes that reads as a number is a channel to play.
pub fn classify_user_text(new_text_from_user: &str) -> (r: UserRequest)
    ensures
        byte_len(new_text_from_user@) > 2 ==> (r matches UserRequest::Fetch(u) && u@ == trim(
            new_text_from_user@,
        )),
        byte_len(new_text_from_user@) <= 2 ==> match two_character_number(new_text_from_user@) {
            Some(n) => r matches UserRequest::PlayChannel(c) && c == n,
            None => r is Ignore,
        },
{
    if byte_length(new_text_from_user) > 2 {
        return UserRequest::Fetch(trim_exec(new_text_from_user));
    }
    let chars = chars_of(new_text_from_user);
    if chars.len() != 2 {
        return UserRequest::Ignore;
    }
    let c0 = chars[0];
    let c1 = chars[1];
    if '0' <= c1 && c1 <= '9' {
        let d1 = (c1 as u32 - '0' as u32) as usize;
        if '0' <= c0 && c0 <= '9' {
            let d0 = (c0 as u32 - '0' as u32) as usize;
            return UserRequest::PlayChannel(10 * d0 + d1);
        } else if c0 == '+' {
            return UserRequest::PlayChannel(d1);
        }
    }
    UserRequest::Ignore
}

/// What the content type of a fetched URL says it is.
#[derive(Debug, PartialEq, Eq, Structural, Clone, Copy)]
pub enum ContentKind {
    /// Audio: play it.
    Audio,
    /// Possibly a podcast's feed: check whether it is RSS.
    PossibleFeed,
    /// XML that is not taken: its type is reported as unknown.
    Unknown,
}

/// Works out what to do with a fetched URL from its content type.
pub fn classify_content_type(content_type: &str) -> (r: ContentKind)
    ensures
        starts_with(content_type@, "audio/"@) ==> r == ContentKind::Audio,
        !starts_with(content_type@, "audio/"@) && !starts_with(content_type@, "application/xml"@)
            ==> r == ContentKind::PossibleFeed,
        !starts_with(content_type@, "audio/"@) && starts_with(content_type@, "application/xml"@)
            ==> r == ContentKind::Unknown,
{
    if str_starts_with(content_type, "audio/") {
        ContentKind::Audio
    } else if !str_starts_with(content_type, "application/xml") {
        ContentKind::PossibleFeed
    } else {
        ContentKind::Unknown
    }
}

/// The state asked for by play/pause: paused when playing, playing otherwise.
pub fn toggled_state(state: GstState) -> (r: GstState)
    ensures
        state == GstState::Playing ==> r == GstState::Paused,
        state != GstState::Playing ==> r == GstState::Playing,
{
    if state == GstState::Playing {
        GstState::Paused
    } else {
        GstState::Playing
    }
}

/// On each tick of the timer: for a channel typed by the user (or the podcast channel) whose
/// position is known, the position and duration are kept. The result says whether they are
/// to be sent to the web page: for a CD or USB channel.
pub fn record_position(status_of_rradio: &mut PlayerStatus, position: Option<u64>, duration: Option<u64>) -> (send_to_web: bool)
    requires
        old(status_of_rradio).wf(),
    ensures
        final(status_of_rradio).wf(),
        final(status_of_rradio).channel_number == old(status_of_rradio).channel_number,
        ({
            let kept = old(status_of_rradio).channel_number <= NUMBER_OF_POSSIBLE_CHANNELS && position is Some;
            let source = old(status_of_rradio).current().channel_data.source_type;
            &&& kept ==> {
                &&& final(status_of_rradio).current().position == position->0
                &&& final(status_of_rradio).current().duration == duration
                &&& final(status_of_rradio).current().channel_data == old(status_of_rradio).current().channel_data
                &&& final(status_of_rradio).current().index_to_current_track == old(status_of_rradio).current().index_to_current_track
                &&& send_to_web == (source == SourceType::Cd || source == SourceType::Usb)
            }
            &&& !kept ==> final(status_of_rradio).position_and_duration == old(status_of_rradio).position_and_duration
                && !send_to_web
        }),
        forall|i: int|
            0 <= i < NUMBER_OF_CHANNEL_SLOTS && i != old(status_of_rradio).channel_number
                ==> #[trigger] final(status_of_rradio).position_and_duration@[i]
                == old(status_of_rradio).position_and_duration@[i],
{
    let channel = status_of_rradio.channel_number;
    if channel > NUMBER_OF_POSSIBLE_CHANNELS {
        return false;
    }
    match position {
        Some(p) => {
            status_of_rradio.position_and_duration[channel].position = p;
            status_of_rradio.position_and_duration[channel].duration = duration;
            let source = status_of_rradio.position_and_duration[channel].channel_data.source_type;
            source == SourceType::Cd || source == SourceType::Usb
        },
        None => false,
    }
}

/// The room that lines 3 and 4 leave for text: three characters fewer for a stream of a
/// channel typed by the user, whose buffer gauge needs them.
pub open spec fn line34_room(status: PlayerStatus) -> nat {
    if status.channel_number <= NUMBER_OF_POSSIBLE_CHANNELS && status.current().channel_data.source_type
        == SourceType::UrlList {
        37
    } else {
        40
    }
}

/// After each event: every line that is too long for its room scrolls on if it is time.
pub fn scroll_all_lines(status_of_rradio: &mut PlayerStatus, config: &Config)
    requires
        old(status_of_rradio).wf(),
    ensures
        final(status_of_rradio).wf(),
        scroll_stepped(final(status_of_rradio).line_1_data, old(status_of_rradio).line_1_data, *config, 20),
        scroll_stepped(final(status_of_rradio).line_2_data, old(status_of_rradio).line_2_data, *config, 20),
        scroll_stepped(
            final(status_of_rradio).line_34_data,
            old(status_of_rradio).line_34_data,
            *config,
            line34_room(*old(status_of_rradio)),
        ),
        scroll_stepped(final(status_of_rradio).all_4lines, old(status_of_rradio).all_4lines, *config, 80),
        *final(status_of_rradio) == (PlayerStatus {
            line_1_data: final(status_of_rradio).line_1_data,
            line_2_data: final(status_of_rradio).line_2_data,
            line_34_data: final(status_of_rradio).line_34_data,
            all_4lines: final(status_of_rradio).all_4lines,
            ..*old(status_of_rradio)
        }),
{
    status_of_rradio.line_1_data.update_scroll(config, 20);
    status_of_rradio.line_2_data.update_scroll(config, 20);
    let channel = status_of_rradio.channel_number;
    let space_needed_for_buffer: usize = if channel <= NUMBER_OF_POSSIBLE_CHANNELS
        && status_of_rradio.position_and_duration[channel].channel_data.source_type == SourceType::UrlList {
        3
    } else {
        0
    };
    status_of_rradio.line_34_data.update_scroll(config, 40 - space_needed_for_buffer);
    status_of_rradio.all_4lines.update_scroll(config, 80);
}

/// The first line shown after the volume changed, and at start-up: the local IP address and
/// the volume.
pub fn volume_line_text(status_of_rradio: &PlayerStatus) -> (r: String)
    ensures
        r@ == status_of_rradio.network_data.local_ip_address@ + " "@ + vol_text(
            status_of_rradio.current_volume,
            status_of_rradio.gstreamer_state,
        ),
{
    let mut r = status_of_rradio.network_data.local_ip_address.clone();
    r.append(" ");
    let v = get_vol_string(status_of_rradio);
    r.append(v.as_str());
    r
}

/// At start-up, a TOML error met so far goes to the first line, where it can scroll, and
/// is no longer shown over the whole screen.
pub fn move_toml_error_to_line1(status_of_rradio: &mut PlayerStatus)
    ensures
        final(status_of_rradio).toml_error is None,
        old(status_of_rradio).toml_error matches Some(e) ==> updated_to_show(
            final(status_of_rradio).line_1_data,
            old(status_of_rradio).line_1_data,
            e@,
        ),
        old(status_of_rradio).toml_error is None ==> final(status_of_rradio).line_1_data == old(status_of_rradio).line_1_data,
        final(status_of_rradio).position_and_duration == old(status_of_rradio).position_and_duration,
        final(status_of_rradio).running_status == old(status_of_rradio).running_status,
{
    match &status_of_rradio.toml_error {
        Some(toml_error) => {
            let e = toml_error.clone();
            status_of_rradio.line_1_data.update_if_changed(e.as_str());
            status_of_rradio.toml_error = None;
        },
        None => {},
    }
}

/// At the end of a stream the next track is played when the channel has more than one.
pub fn plays_next_at_end_of_stream(status_of_rradio: &PlayerStatus) -> (r: bool)
    requires
        status_of_rradio.wf(),
    ensures
        r == (status_of_rradio.current().channel_data.station_url@.len() > 1),
{
    status_of_rradio.position_and_duration[status_of_rradio.channel_number].channel_data.station_url.len() > 1
}

/// At start-up, when a start-up ding is configured: the ding channel gets it as its only
/// track, as a stream, and becomes the current channel.
pub fn set_up_startup_ding(status_of_rradio: &mut PlayerStatus, startup_filename: &str)
    requires
        old(status_of_rradio).wf(),
    ensures
        final(status_of_rradio).wf(),
        final(status_of_rradio).channel_number == START_UP_DING_CHANNEL_NUMBER,
        final(status_of_rradio).current().channel_data.station_url@.len() == 1,
        final(status_of_rradio).current().channel_data.station_url@[0]@ == file_url(startup_filename@),
        final(status_of_rradio).current().channel_data.source_type == SourceType::UrlList,
        final(status_of_rradio).current().index_to_current_track
            == old(status_of_rradio).position_and_duration@[START_UP_DING_CHANNEL_NUMBER as int].index_to_current_track,
        forall|i: int|
            0 <= i < NUMBER_OF_CHANNEL_SLOTS && i != START_UP_DING_CHANNEL_NUMBER
                ==> #[trigger] final(status_of_rradio).position_and_duration@[i]
                == old(status_of_rradio).position_and_duration@[i],
        final(status_of_rradio).running_status == old(status_of_rradio).running_status,
{
    status_of_rradio.channel_number = START_UP_DING_CHANNEL_NUMBER;
    let mut urls: Vec<String> = Vec::new();
    urls.push(file_url_exec(startup_filename));
    status_of_rradio.position_and_duration[START_UP_DING_CHANNEL_NUMBER].channel_data.station_url = urls;
    status_of_rradio.position_and_duration[START_UP_DING_CHANNEL_NUMBER].channel_data.source_type = SourceType::UrlList;
}

/// Shows a message over all four lines, from its start.
pub fn show_long_message(status_of_rradio: &mut PlayerStatus, message: &str)
    ensures
        final(status_of_rradio).running_status == RunningStatus::LongMessageOnAll4Lines,
        final(status_of_rradio).all_4lines.text.bytes@ == lcd_encode(message@),
        final(status_of_rradio).all_4lines.scroll_position == 0,
        final(status_of_rradio).all_4lines.num_lines == 4,
        final(status_of_rradio).position_and_duration == old(status_of_rradio).position_and_duration,
        final(status_of_rradio).channel_number == old(status_of_rradio).channel_number,
{
    status_of_rradio.all_4lines = ScrollData::new(message, 4);
    status_of_rradio.running_status = RunningStatus::LongMessageOnAll4Lines;
}

/// The index of the last occurrence of `c` in `s`, if any.
pub open spec fn last_index_of(s: Seq<char>, c: char) -> Option<int>
    decreases s.len(),
{
    if s.len() == 0 {
        None
    } else if s.last() == c {
        Some(s.len() - 1)
    } else {
        last_index_of(s.drop_last(), c)
    }
}

/// The folder of the program, taken from the path it was started by: the path up to and
/// including its last `/`, if it has one.
pub open spec fn root_folder_spec(program_path: Seq<char>) -> Option<Seq<char>> {
    match last_index_of(program_path, '/') {
        Some(i) => Some(program_path.subrange(0, i + 1)),
        None => None,
    }
}

/// The folder of the program, taken from the path it was started by (see
/// `root_folder_spec`).
pub fn root_folder_of(program_path: &str) -> (r: Option<String>)
    ensures
        match root_folder_spec(program_path@) {
            Some(f) => r matches Some(s) && s@ == f,
            None => r is None,
        },
{
    let chars = chars_of(program_path);
    let mut k: usize = chars.len();
    assert(chars@.subrange(0, k as int) =~= chars@);
    while k > 0
        invariant
            k <= chars@.len(),
            chars@ == program_path@,
            last_index_of(chars@, '/') == last_index_of(chars@.subrange(0, k as int), '/'),
        decreases k,
    {
        let ghost prefix = chars@.subrange(0, k as int);
        assert(prefix.drop_last() =~= chars@.subrange(0, k - 1));
        if chars[k - 1] == '/' {
            assert(last_index_of(prefix, '/') == Some(k - 1));
            return Some(crate::text::string_from_chars(&chars, 0, k));
        }
        k = k - 1;
    }
    assert(chars@.subrange(0, 0).len() == 0);
    None
}

} // verus!
