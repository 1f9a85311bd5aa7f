//! Changing channel and playing: how the player's status changes before a channel is looked
//! up, when it cannot be found or read, and after its track was (or was not) started.
use vstd::prelude::*;
use string_replace_all::StringReplaceAll;
use crate::get_channel_details::{
    ChannelErrorEvents, ChannelFileDataDecoded, SourceType, file_url, file_url_exec, get_ip_address,
    host_of, lcd_screen_text,
};
use crate::lcd::{RunningStatus, updated_to_show};
use crate::player_status::{
    NUMBER_OF_CHANNEL_SLOTS, PODCAST_CHANNEL_NUMBER, PlayerStatus, RealTimeDataOnOneChannel,
    START_UP_DING_CHANNEL_NUMBER,
};
use crate::podcast::EpisodeDataForOnePodcastDownloaded;
use crate::read_config::Config;
use crate::text::{append_u64, chars_of, decimal, push_char, replaced};

verus! {

/// How far a seek goes, in seconds: a short and a long step.
#[derive(Debug, PartialEq, Eq, Structural, Clone, Copy)]
pub struct SeekTimes {
    pub short_seek_time: i32,
    pub long_seek_time: i32,
}

/// The seeks offered for a channel, backwards then forwards: the configured steps for a CD
/// or a USB channel, none for any other.
pub fn seek_times(source_type: SourceType, config: &Config) -> (r: (Option<SeekTimes>, Option<SeekTimes>))
    requires
        config.short_advance_time > i32::MIN,
        config.long_advance_time > i32::MIN,
    ensures
        (source_type == SourceType::Usb || source_type == SourceType::Cd) ==> {
            &&& r.0 matches Some(b) && b.short_seek_time == -config.short_advance_time
                && b.long_seek_time == -config.long_advance_time
            &&& r.1 == Some(
                SeekTimes {
                    short_seek_time: config.short_advance_time,
                    long_seek_time: config.long_advance_time,
                },
            )
        },
        !(source_type == SourceType::Usb || source_type == SourceType::Cd) ==> r.0 is None && r.1 is None,
{
    match source_type {
        SourceType::Usb | SourceType::Cd => (
            Some(
                SeekTimes {
                    short_seek_time: -config.short_advance_time,
                    long_seek_time: -config.long_advance_time,
                },
            ),
            Some(
                SeekTimes {
                    short_seek_time: config.short_advance_time,
                    long_seek_time: config.long_advance_time,
                },
            ),
        ),
        SourceType::UrlList | SourceType::UnknownSource => (None, None),
    }
}

/// The first step of `play_channel`: starts afresh, puts the channel played so far back to
/// its start, clears lines 2 to 4 and the long message, and makes `channel_number` the
/// current channel. Gives back the channel played so far. Starting afresh sets the player
/// running normally before anything else, so a channel chosen again while "no channel" is
/// shown is looked up again like any other; when it is still missing, the lookup's error
/// (`record_channel_error`) gives the repeated state.
pub fn start_playing_channel(status_of_rradio: &mut PlayerStatus, channel_number: usize) -> (previous_channel_number: usize)
    requires
        old(status_of_rradio).wf(),
        channel_number < NUMBER_OF_CHANNEL_SLOTS,
    ensures
        final(status_of_rradio).wf(),
        previous_channel_number == old(status_of_rradio).channel_number,
        final(status_of_rradio).channel_number == channel_number,
        final(status_of_rradio).running_status == RunningStatus::RunningNormally,
        final(status_of_rradio).ping_data.number_of_pings_to_this_channel == 0,
        final(status_of_rradio).position_and_duration@[previous_channel_number as int].position == 0,
        final(status_of_rradio).position_and_duration@[previous_channel_number as int].channel_data
            == old(status_of_rradio).position_and_duration@[previous_channel_number as int].channel_data,
        final(status_of_rradio).position_and_duration@[previous_channel_number as int].index_to_current_track
            == old(status_of_rradio).position_and_duration@[previous_channel_number as int].index_to_current_track,
        forall|i: int|
            0 <= i < NUMBER_OF_CHANNEL_SLOTS && i != previous_channel_number
                ==> #[trigger] final(status_of_rradio).position_and_duration@[i]
                == old(status_of_rradio).position_and_duration@[i],
        updated_to_show(final(status_of_rradio).line_2_data, old(status_of_rradio).line_2_data, Seq::empty()),
        updated_to_show(final(status_of_rradio).line_34_data, old(status_of_rradio).line_34_data, Seq::empty()),
        updated_to_show(final(status_of_rradio).all_4lines, old(status_of_rradio).all_4lines, Seq::empty()),
        final(status_of_rradio).toml_error == old(status_of_rradio).toml_error,
        final(status_of_rradio).current_volume == old(status_of_rradio).current_volume,
{
    status_of_rradio.initialise_for_new_station();
    let previous_channel_number = status_of_rradio.channel_number;
    status_of_rradio.position_and_duration[previous_channel_number].position = 0;
    proof {
        reveal_strlit("");
    }
    status_of_rradio.line_2_data.update_if_changed("");
    status_of_rradio.line_34_data.update_if_changed("");
    status_of_rradio.all_4lines.update_if_changed("");
    status_of_rradio.channel_number = channel_number;
    previous_channel_number
}

/// Whether `store_channel_details_and_implement_them` keeps the data it has: the channel
/// changed and the data of the channel now chosen has already been got.
pub fn channel_details_already_known(status_of_rradio: &PlayerStatus, previous_channel_number: usize) -> (r: bool)
    requires
        status_of_rradio.wf(),
    ensures
        r == (status_of_rradio.channel_number != previous_channel_number
            && status_of_rradio.current().channel_data.data_is_initialised),
{
    status_of_rradio.channel_number != previous_channel_number
        && status_of_rradio.position_and_duration[status_of_rradio.channel_number].channel_data.data_is_initialised
}

/// Before the channel is looked up: starts afresh and puts the current channel back to its
/// start.
pub fn begin_channel_lookup(status_of_rradio: &mut PlayerStatus)
    requires
        old(status_of_rradio).wf(),
    ensures
        final(status_of_rradio).wf(),
        final(status_of_rradio).channel_number == old(status_of_rradio).channel_number,
        final(status_of_rradio).running_status == RunningStatus::RunningNormally,
        final(status_of_rradio).ping_data.number_of_pings_to_this_channel == 0,
        final(status_of_rradio).current().position == 0,
        final(status_of_rradio).current().channel_data == old(status_of_rradio).current().channel_data,
        forall|i: int|
            0 <= i < NUMBER_OF_CHANNEL_SLOTS && i != old(status_of_rradio).channel_number
                ==> #[trigger] final(status_of_rradio).position_and_duration@[i]
                == old(status_of_rradio).position_and_duration@[i],
        final(status_of_rradio).toml_error == old(status_of_rradio).toml_error,
        final(status_of_rradio).all_4lines == old(status_of_rradio).all_4lines,
{
    status_of_rradio.initialise_for_new_station();
    let channel = status_of_rradio.channel_number;
    status_of_rradio.position_and_duration[channel].position = 0;
}

/// Stores the data of the channel that was looked up: it becomes the current channel's
/// data, any TOML error is cleared, and the address to ping is the host of its first URL,
/// if it has one. Says whether the channel is on mountable media, whose tracks are still to
/// be found.
pub fn store_new_channel_data(status_of_rradio: &mut PlayerStatus, new_channel_file_data: ChannelFileDataDecoded) -> (r: bool)
    requires
        old(status_of_rradio).wf(),
    ensures
        final(status_of_rradio).wf(),
        r == (new_channel_file_data.source_type == SourceType::Usb),
        final(status_of_rradio).channel_number == old(status_of_rradio).channel_number,
        final(status_of_rradio).current().channel_data == new_channel_file_data,
        final(status_of_rradio).toml_error is None,
        new_channel_file_data.station_url@.len() > 0 ==> final(status_of_rradio).current().address_to_ping@
            == host_of(new_channel_file_data.station_url@[0]@),
        new_channel_file_data.station_url@.len() == 0 ==> final(status_of_rradio).current().address_to_ping
            == old(status_of_rradio).current().address_to_ping,
        final(status_of_rradio).current().position == old(status_of_rradio).current().position,
        final(status_of_rradio).current().index_to_current_track == old(status_of_rradio).current().index_to_current_track,
        forall|i: int|
            0 <= i < NUMBER_OF_CHANNEL_SLOTS && i != old(status_of_rradio).channel_number
                ==> #[trigger] final(status_of_rradio).position_and_duration@[i]
                == old(status_of_rradio).position_and_duration@[i],
        final(status_of_rradio).running_status == old(status_of_rradio).running_status,
        final(status_of_rradio).all_4lines == old(status_of_rradio).all_4lines,
{
    let channel = status_of_rradio.channel_number;
    let is_usb = new_channel_file_data.source_type == SourceType::Usb;
    if new_channel_file_data.station_url.len() > 0 {
        let address = get_ip_address(new_channel_file_data.station_url[0].clone());
        status_of_rradio.position_and_duration[channel].address_to_ping = address;
    }
    status_of_rradio.position_and_duration[channel].channel_data = new_channel_file_data;
    status_of_rradio.toml_error = None;
    is_usb
}

/// Sets up the ding channel to play the error ding, from its first (and only) track.
fn load_error_ding(status_of_rradio: &mut PlayerStatus, ding_filename: &str)
    requires
        old(status_of_rradio).wf(),
    ensures
        final(status_of_rradio).wf(),
        ({
            let ding = final(status_of_rradio).position_and_duration@[START_UP_DING_CHANNEL_NUMBER as int];
            let before = old(status_of_rradio).position_and_duration@[START_UP_DING_CHANNEL_NUMBER as int];
            &&& ding.channel_data.station_url@.len() == 1
            &&& ding.channel_data.station_url@[0]@ == file_url(ding_filename@)
            &&& ding.index_to_current_track == 0
            &&& ding.position == before.position
            &&& ding.channel_data.source_type == before.channel_data.source_type
            &&& ding.channel_data.pause_before_playing_ms == before.channel_data.pause_before_playing_ms
        }),
        forall|i: int|
            0 <= i < NUMBER_OF_CHANNEL_SLOTS && i != START_UP_DING_CHANNEL_NUMBER
                ==> #[trigger] final(status_of_rradio).position_and_duration@[i]
                == old(status_of_rradio).position_and_duration@[i],
        final(status_of_rradio).channel_number == old(status_of_rradio).channel_number,
        final(status_of_rradio).running_status == old(status_of_rradio).running_status,
        final(status_of_rradio).toml_error == old(status_of_rradio).toml_error,
        final(status_of_rradio).all_4lines == old(status_of_rradio).all_4lines,
{
    let mut urls: Vec<String> = Vec::new();
    urls.push(file_url_exec(ding_filename));
    status_of_rradio.position_and_duration[START_UP_DING_CHANNEL_NUMBER].channel_data.station_url = urls;
    status_of_rradio.position_and_duration[START_UP_DING_CHANNEL_NUMBER].index_to_current_track = 0;
}

/// What `store_channel_details_and_implement_them` does when the channel could not be
/// looked up. A missing channel gives `NoChannel` (or `NoChannelRepeated`, clearing the
/// TOML error, when that channel was already missing), and the error ding, if one is
/// configured, is set up on the ding channel: then the result is true and the ding is to be
/// played. Any other error is shown over all four lines.
pub fn record_lookup_failure(
    status_of_rradio: &mut PlayerStatus,
    error: &ChannelErrorEvents,
    previous_channel_number: usize,
    config: &Config,
) -> (play_error_ding: bool)
    requires
        old(status_of_rradio).wf(),
    ensures
        final(status_of_rradio).wf(),
        final(status_of_rradio).channel_number == old(status_of_rradio).channel_number,
        (*error is CouldNotFindChannelFile) ==> {
            let repeated = old(status_of_rradio).running_status == RunningStatus::NoChannel
                && old(status_of_rradio).channel_number == previous_channel_number;
            &&& final(status_of_rradio).running_status == if repeated {
                RunningStatus::NoChannelRepeated
            } else {
                RunningStatus::NoChannel
            }
            &&& final(status_of_rradio).toml_error == if repeated {
                None
            } else {
                old(status_of_rradio).toml_error
            }
            &&& play_error_ding == config.aural_notifications.filename_error is Some
            &&& final(status_of_rradio).all_4lines == old(status_of_rradio).all_4lines
        },
        (*error is CouldNotFindChannelFile && config.aural_notifications.filename_error is Some) ==> {
            let ding = final(status_of_rradio).position_and_duration@[START_UP_DING_CHANNEL_NUMBER as int];
            &&& ding.channel_data.station_url@.len() == 1
            &&& ding.channel_data.station_url@[0]@ == file_url(config.aural_notifications.filename_error->0@)
            &&& ding.index_to_current_track == 0
        },
        !(*error is CouldNotFindChannelFile && config.aural_notifications.filename_error is Some)
            ==> final(status_of_rradio).position_and_duration == old(status_of_rradio).position_and_duration,
        !(*error is CouldNotFindChannelFile) ==> {
            &&& !play_error_ding
            &&& final(status_of_rradio).running_status == RunningStatus::LongMessageOnAll4Lines
            &&& updated_to_show(final(status_of_rradio).all_4lines, old(status_of_rradio).all_4lines, lcd_screen_text(*error))
            &&& final(status_of_rradio).toml_error == old(status_of_rradio).toml_error
        },
{
    match error {
        ChannelErrorEvents::CouldNotFindChannelFile => {
            if status_of_rradio.running_status == RunningStatus::NoChannel && status_of_rradio.channel_number
                == previous_channel_number {
                status_of_rradio.toml_error = None;
                status_of_rradio.running_status = RunningStatus::NoChannelRepeated;
            } else {
                status_of_rradio.running_status = RunningStatus::NoChannel;
            }
            match &config.aural_notifications.filename_error {
                Some(ding_filename) => {
                    load_error_ding(status_of_rradio, ding_filename.as_str());
                    true
                },
                None => false,
            }
        },
        _ => {
            let text = error.to_lcd_screen();
            status_of_rradio.all_4lines.update_if_changed(text.as_str());
            status_of_rradio.running_status = RunningStatus::LongMessageOnAll4Lines;
            false
        },
    }
}

/// Turns the line breaks, bars and carets of a TOML error into spaces.
pub open spec fn blanked(c: char) -> char {
    if c == '\n' || c == '|' || c == '^' {
        ' '
    } else {
        c
    }
}

/// A TOML error made fit for the screen: line breaks, bars and carets become spaces, then
/// pairs of spaces are replaced by one space three times over.
pub open spec fn tidy_toml_error(error_message: Seq<char>) -> Seq<char> {
    let two = seq![' ', ' '];
    let one = seq![' '];
    replaced(replaced(replaced(error_message.map_values(|c: char| blanked(c)), two, one), two, one), two, one)
}

/// The TOML error shown when a channel file could not be parsed.
pub open spec fn toml_error_text(channel_number: nat, error_message: Seq<char>) -> Seq<char> {
    "Could not parse channel "@ + decimal(channel_number) + ". "@ + tidy_toml_error(error_message)
}

/// Calls `StringReplaceAll::replace_all` of `string_replace_all` with a string pattern.
/// Claimed: as its source shows, it is `str::replace`: every occurrence of `from`, taken from
/// the left without overlapping, is replaced by `to`.
#[verifier::external_body]
fn replace_all_of(s: &str, from: &str, to: &str) -> (r: String)
    requires
        from@.len() > 0,
    ensures
        r@ == replaced(s@, from@, to@),
{
    s.replace_all(from, to)
}

/// The text with its line breaks, bars and carets turned into spaces.
fn blank_out(text: &str) -> (r: String)
    ensures
        r@ == text@.map_values(|c: char| blanked(c)),
{
    let chars = chars_of(text);
    let mut r = String::new();
    let mut i: usize = 0;
    while i < chars.len()
        invariant
            i <= chars@.len(),
            chars@ == text@,
            r@ == chars@.subrange(0, i as int).map_values(|c: char| blanked(c)),
        decreases chars@.len() - i,
    {
        let c = chars[i];
        let b = if c == '\n' || c == '|' || c == '^' {
            ' '
        } else {
            c
        };
        push_char(&mut r, b);
        assert(chars@.subrange(0, i + 1).map_values(|c: char| blanked(c)) =~= chars@.subrange(
            0,
            i as int,
        ).map_values(|c: char| blanked(c)).push(b));
        i = i + 1;
    }
    assert(chars@.subrange(0, i as int) =~= chars@);
    r
}

/// A TOML error made fit for the screen (see `tidy_toml_error`).
pub fn tidy_error_message(error_message: &str) -> (r: String)
    ensures
        r@ == tidy_toml_error(error_message@),
{
    let blank = blank_out(error_message);
    proof {
        reveal_strlit("  ");
        reveal_strlit(" ");
    }
    let once = replace_all_of(blank.as_str(), "  ", " ");
    let twice = replace_all_of(once.as_str(), "  ", " ");
    let r = replace_all_of(twice.as_str(), "  ", " ");
    assert("  "@ =~= seq![' ', ' ']);
    assert(" "@ =~= seq![' ']);
    r
}

/// A tidied TOML error holds no line break, bar or caret.
pub proof fn lemma_tidy_toml_error_is_one_line(error_message: Seq<char>)
    ensures
        !tidy_toml_error(error_message).contains('\n'),
        !tidy_toml_error(error_message).contains('|'),
        !tidy_toml_error(error_message).contains('^'),
{
    let two = seq![' ', ' '];
    let one = seq![' '];
    let m = error_message.map_values(|c: char| blanked(c));
    assert forall|c: char| c == '\n' || c == '|' || c == '^' implies !tidy_toml_error(error_message).contains(c) by {
        assert forall|k: int| 0 <= k < m.len() implies m[k] != c by {
            assert(m[k] == blanked(error_message[k]));
        }
        assert(!one.contains(c)) by {
            assert(one[0] == ' ');
        }
        let r1 = replaced(m, two, one);
        lemma_replaced_keeps_out_of(m, two, one, c);
        let r2 = replaced(r1, two, one);
        lemma_replaced_keeps_out_of(r1, two, one, c);
        lemma_replaced_keeps_out_of(r2, two, one, c);
    }
}

/// `lemma_replaced_keeps_out` for a character that is not a space.
proof fn lemma_replaced_keeps_out_of(s: Seq<char>, from: Seq<char>, to: Seq<char>, c: char)
    requires
        !s.contains(c),
        to == seq![' '],
        c != ' ',
    ensures
        !replaced(s, from, to).contains(c),
{
    assert(!to.contains(c)) by {
        assert(to[0] == ' ');
    }
    crate::text::lemma_replaced_keeps_out(s, from, to, c);
}

/// The TOML error shown when a channel file could not be parsed: the channel's number and
/// the tidied error.
pub fn toml_error_message(channel_number: usize, error_message: &str) -> (r: String)
    ensures
        r@ == toml_error_text(channel_number as nat, error_message@),
{
    let mut r = String::from_str("Could not parse channel ");
    append_u64(&mut r, channel_number as u64);
    r.append(". ");
    let tidy = tidy_error_message(error_message);
    r.append(tidy.as_str());
    r
}

/// What `play_channel` does when the channel could not be stored. A missing channel gives
/// `NoChannelRepeated` if it was asked for twice running, else `NoChannel`, clears the TOML
/// error and sets up the error ding, if one is configured (the result is then true: the
/// ding is to be played). A channel file that could not be parsed gives a TOML error. Any
/// other error is shown over all four lines.
pub fn record_channel_error(
    status_of_rradio: &mut PlayerStatus,
    error: &ChannelErrorEvents,
    previous_channel_number: usize,
    config: &Config,
) -> (play_error_ding: bool)
    requires
        old(status_of_rradio).wf(),
    ensures
        final(status_of_rradio).wf(),
        final(status_of_rradio).channel_number == old(status_of_rradio).channel_number,
        (*error is CouldNotFindChannelFile) ==> {
            &&& final(status_of_rradio).toml_error is None
            &&& final(status_of_rradio).running_status == if previous_channel_number
                == old(status_of_rradio).channel_number {
                RunningStatus::NoChannelRepeated
            } else {
                RunningStatus::NoChannel
            }
            &&& play_error_ding == config.aural_notifications.filename_error is Some
            &&& final(status_of_rradio).all_4lines == old(status_of_rradio).all_4lines
        },
        (*error is CouldNotFindChannelFile && config.aural_notifications.filename_error is Some) ==> {
            let ding = final(status_of_rradio).position_and_duration@[START_UP_DING_CHANNEL_NUMBER as int];
            &&& ding.channel_data.station_url@.len() == 1
            &&& ding.channel_data.station_url@[0]@ == file_url(config.aural_notifications.filename_error->0@)
            &&& ding.index_to_current_track == 0
        },
        !(*error is CouldNotFindChannelFile && config.aural_notifications.filename_error is Some)
            ==> final(status_of_rradio).position_and_duration == old(status_of_rradio).position_and_duration,
        *error matches ChannelErrorEvents::CouldNotParseChannelFile { channel_number, error_message } ==> {
            &&& !play_error_ding
            &&& final(status_of_rradio).toml_error matches Some(t) && t@ == toml_error_text(
                channel_number as nat,
                error_message@,
            )
            &&& final(status_of_rradio).running_status == old(status_of_rradio).running_status
            &&& final(status_of_rradio).all_4lines == old(status_of_rradio).all_4lines
        },
        !(*error is CouldNotFindChannelFile || *error is CouldNotParseChannelFile) ==> {
            &&& !play_error_ding
            &&& final(status_of_rradio).running_status == RunningStatus::LongMessageOnAll4Lines
            &&& updated_to_show(final(status_of_rradio).all_4lines, old(status_of_rradio).all_4lines, lcd_screen_text(*error))
            &&& final(status_of_rradio).toml_error == old(status_of_rradio).toml_error
        },
{
    match error {
        ChannelErrorEvents::CouldNotFindChannelFile => {
            status_of_rradio.toml_error = None;
            status_of_rradio.running_status = if previous_channel_number == status_of_rradio.channel_number {
                RunningStatus::NoChannelRepeated
            } else {
                RunningStatus::NoChannel
            };
            match &config.aural_notifications.filename_error {
                Some(ding_filename) => {
                    load_error_ding(status_of_rradio, ding_filename.as_str());
                    true
                },
                None => false,
            }
        },
        ChannelErrorEvents::CouldNotParseChannelFile { channel_number, error_message } => {
            status_of_rradio.toml_error = Some(toml_error_message(*channel_number, error_message.as_str()));
            false
        },
        _ => {
            let text = error.to_lcd_screen();
            status_of_rradio.all_4lines.update_if_changed(text.as_str());
            status_of_rradio.running_status = RunningStatus::LongMessageOnAll4Lines;
            false
        },
    }
}

/// What was being played when playing failed.
#[derive(Debug, PartialEq, Eq, Structural, Clone, Copy)]
pub enum PlayRequest {
    /// A channel or a podcast URL.
    Channel,
    /// The next track of the channel.
    NextTrack,
    /// The previous track of the channel.
    PreviousTrack,
    /// An episode of a podcast, chosen on the web page.
    Episode,
}

/// The message shown when playing failed.
pub open spec fn play_failure_text(request: PlayRequest, channel_number: nat, message: Seq<char>) -> Seq<char> {
    match request {
        PlayRequest::Channel => "When playing a track on channel "@ + decimal(channel_number) + " got "@ + message,
        PlayRequest::NextTrack => "When wanting to play the next track playing a track got "@ + message,
        PlayRequest::PreviousTrack => "When wanting to play the previous track got "@ + message,
        PlayRequest::Episode => "In main: When playing a track on channel "@ + decimal(channel_number) + " got "@
            + message,
    }
}

/// What happens when playing failed: the message is shown over all four lines.
pub fn record_play_failure(status_of_rradio: &mut PlayerStatus, request: PlayRequest, message: &str)
    ensures
        final(status_of_rradio).running_status == RunningStatus::LongMessageOnAll4Lines,
        updated_to_show(
            final(status_of_rradio).all_4lines,
            old(status_of_rradio).all_4lines,
            play_failure_text(request, old(status_of_rradio).channel_number as nat, message@),
        ),
        final(status_of_rradio).channel_number == old(status_of_rradio).channel_number,
        final(status_of_rradio).position_and_duration == old(status_of_rradio).position_and_duration,
        final(status_of_rradio).line_2_data == old(status_of_rradio).line_2_data,
        final(status_of_rradio).toml_error == old(status_of_rradio).toml_error,
{
    let mut text = match request {
        PlayRequest::Channel => {
            let mut t = String::from_str("When playing a track on channel ");
            append_u64(&mut t, status_of_rradio.channel_number as u64);
            t.append(" got ");
            t
        },
        PlayRequest::NextTrack => String::from_str("When wanting to play the next track playing a track got "),
        PlayRequest::PreviousTrack => String::from_str("When wanting to play the previous track got "),
        PlayRequest::Episode => {
            let mut t = String::from_str("In main: When playing a track on channel ");
            append_u64(&mut t, status_of_rradio.channel_number as u64);
            t.append(" got ");
            t
        },
    };
    text.append(message);
    status_of_rradio.all_4lines.update_if_changed(text.as_str());
    status_of_rradio.running_status = RunningStatus::LongMessageOnAll4Lines;
}

/// After the previous track started: line 2 shows the channel's organisation.
pub fn record_previous_track_played(status_of_rradio: &mut PlayerStatus)
    requires
        old(status_of_rradio).wf(),
    ensures
        updated_to_show(
            final(status_of_rradio).line_2_data,
            old(status_of_rradio).line_2_data,
            old(status_of_rradio).current().channel_data.organisation@,
        ),
        final(status_of_rradio).running_status == old(status_of_rradio).running_status,
        final(status_of_rradio).channel_number == old(status_of_rradio).channel_number,
        final(status_of_rradio).position_and_duration == old(status_of_rradio).position_and_duration,
{
    let channel = status_of_rradio.channel_number;
    let organisation = status_of_rradio.position_and_duration[channel].channel_data.organisation.clone();
    status_of_rradio.line_2_data.update_if_changed(organisation.as_str());
}

/// The podcast channel's data for a URL: the URL is its only track, its host the address
/// pinged, and it starts from the beginning.
pub open spec fn is_podcast_channel_data(c: RealTimeDataOnOneChannel, url: String, organisation: Seq<char>) -> bool {
    &&& c.artist@ == Seq::<char>::empty()
    &&& c.address_to_ping@ == host_of(url@)
    &&& c.index_to_current_track == 0
    &&& c.position == 0
    &&& c.duration is None
    &&& c.channel_data.organisation@ == organisation
    &&& c.channel_data.source_type == SourceType::UrlList
    &&& !c.channel_data.last_track_is_a_ding
    &&& c.channel_data.pause_before_playing_ms is None
    &&& !c.channel_data.random_tracks_wanted
    &&& !c.channel_data.data_is_initialised
    &&& c.channel_data.station_url@.len() == 1
    &&& c.channel_data.station_url@[0] == url
    &&& c.channel_data.media_details is None
}

/// Makes the podcast channel play `url` under the name `organisation`, and makes it the
/// current channel, started afresh.
fn install_podcast(status_of_rradio: &mut PlayerStatus, url: String, organisation: String)
    requires
        old(status_of_rradio).wf(),
    ensures
        final(status_of_rradio).wf(),
        final(status_of_rradio).channel_number == PODCAST_CHANNEL_NUMBER,
        final(status_of_rradio).running_status == RunningStatus::RunningNormally,
        final(status_of_rradio).ping_data.number_of_pings_to_this_channel == 0,
        is_podcast_channel_data(final(status_of_rradio).current(), url, organisation@),
        forall|i: int|
            0 <= i < NUMBER_OF_CHANNEL_SLOTS && i != PODCAST_CHANNEL_NUMBER
                ==> #[trigger] final(status_of_rradio).position_and_duration@[i]
                == old(status_of_rradio).position_and_duration@[i],
        final(status_of_rradio).toml_error == old(status_of_rradio).toml_error,
        final(status_of_rradio).all_4lines == old(status_of_rradio).all_4lines,
        final(status_of_rradio).line_2_data == old(status_of_rradio).line_2_data,
{
    status_of_rradio.running_status = RunningStatus::RunningNormally;
    let address_to_ping = get_ip_address(url.clone());
    let mut station_url: Vec<String> = Vec::new();
    station_url.push(url);
    let mut channel_data = ChannelFileDataDecoded::new();
    channel_data.organisation = organisation;
    channel_data.source_type = SourceType::UrlList;
    channel_data.last_track_is_a_ding = false;
    channel_data.pause_before_playing_ms = None;
    channel_data.random_tracks_wanted = false;
    channel_data.data_is_initialised = false;
    channel_data.station_url = station_url;
    channel_data.media_details = None;
    status_of_rradio.position_and_duration.set(
        PODCAST_CHANNEL_NUMBER,
        RealTimeDataOnOneChannel {
            artist: String::new(),
            address_to_ping,
            index_to_current_track: 0,
            position: 0,
            duration: None,
            channel_data,
        },
    );
    status_of_rradio.channel_number = PODCAST_CHANNEL_NUMBER;
    status_of_rradio.initialise_for_new_station();
}

/// The first step of `play_url`: the podcast channel gets the URL as its only track, with
/// no name, and becomes the current channel, started afresh.
pub fn set_up_podcast_channel(status_of_rradio: &mut PlayerStatus, new_podcast_text: String)
    requires
        old(status_of_rradio).wf(),
    ensures
        final(status_of_rradio).wf(),
        final(status_of_rradio).channel_number == PODCAST_CHANNEL_NUMBER,
        final(status_of_rradio).running_status == RunningStatus::RunningNormally,
        final(status_of_rradio).ping_data.number_of_pings_to_this_channel == 0,
        is_podcast_channel_data(final(status_of_rradio).current(), new_podcast_text, Seq::empty()),
        forall|i: int|
            0 <= i < NUMBER_OF_CHANNEL_SLOTS && i != PODCAST_CHANNEL_NUMBER
                ==> #[trigger] final(status_of_rradio).position_and_duration@[i]
                == old(status_of_rradio).position_and_duration@[i],
        final(status_of_rradio).toml_error == old(status_of_rradio).toml_error,
        final(status_of_rradio).all_4lines == old(status_of_rradio).all_4lines,
        final(status_of_rradio).line_2_data == old(status_of_rradio).line_2_data,
{
    install_podcast(status_of_rradio, new_podcast_text, String::new());
}

/// When an episode of the podcast read last is chosen: the podcast channel plays its URL,
/// named by the podcast's title and the episode's subtitle, and becomes the current channel.
pub fn set_up_podcast_episode(
    status_of_rradio: &mut PlayerStatus,
    episodes: &EpisodeDataForOnePodcastDownloaded,
    episode_index: usize,
)
    requires
        old(status_of_rradio).wf(),
        episode_index < episodes.data_for_multiple_episodes@.len(),
    ensures
        final(status_of_rradio).wf(),
        final(status_of_rradio).channel_number == PODCAST_CHANNEL_NUMBER,
        final(status_of_rradio).running_status == RunningStatus::RunningNormally,
        final(status_of_rradio).ping_data.number_of_pings_to_this_channel == 0,
        is_podcast_channel_data(
            final(status_of_rradio).current(),
            episodes.data_for_multiple_episodes@[episode_index as int].url,
            episodes.channel_title@ + " "@ + episodes.data_for_multiple_episodes@[episode_index as int].subtitle@,
        ),
        forall|i: int|
            0 <= i < NUMBER_OF_CHANNEL_SLOTS && i != PODCAST_CHANNEL_NUMBER
                ==> #[trigger] final(status_of_rradio).position_and_duration@[i]
                == old(status_of_rradio).position_and_duration@[i],
        final(status_of_rradio).toml_error == old(status_of_rradio).toml_error,
        final(status_of_rradio).all_4lines == old(status_of_rradio).all_4lines,
{
    let episode = &episodes.data_for_multiple_episodes[episode_index];
    let mut organisation = episodes.channel_title.clone();
    organisation.append(" ");
    organisation.append(episode.subtitle.as_str());
    install_podcast(status_of_rradio, episode.url.clone(), organisation);
}

} // verus!
