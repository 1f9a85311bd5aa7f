//! The decisions taken around the GStreamer player: the volume, and which track plays next.
use vstd::prelude::*;
use crate::get_channel_details::SourceType;
use crate::lcd::{LineNum, RunningStatus, TextBuffer, written, blank_screen};
use crate::player_status::{PlayerStatus, START_UP_DING_CHANNEL_NUMBER};
use crate::read_config::Config;
use crate::text::{append_u64, decimal};

verus! {

/// The normal maximum for gstreamer that will not overload
pub const VOLUME_ZERO_DB: i32 = 100;
/// The lowest possible gstreamer volume
pub const VOLUME_MIN: i32 = 0;
/// The maximum possible gstreamer volume
pub const VOLUME_MAX: i32 = 120;

/// `v` held within `VOLUME_MIN..=VOLUME_MAX`.
pub open spec fn clamp_volume(v: int) -> int {
    if v < VOLUME_MIN {
        VOLUME_MIN as int
    } else if v > VOLUME_MAX {
        VOLUME_MAX as int
    } else {
        v
    }
}

/// Whatever change is asked for, the volume stays within `VOLUME_MIN..=VOLUME_MAX`.
pub proof fn lemma_volume_stays_in_range(v: int)
    ensures
        VOLUME_MIN <= clamp_volume(v) <= VOLUME_MAX,
{
}

/// Turning the volume up by a step and then down by the same step gives back the volume,
/// when the step up did not hit the maximum.
pub proof fn lemma_volume_down_undoes_up(volume: int, offset: int)
    requires
        VOLUME_MIN <= volume,
        0 <= offset,
        volume + offset <= VOLUME_MAX,
    ensures
        clamp_volume(clamp_volume(volume + offset) - offset) == volume,
{
}

/// A volume held within `VOLUME_MIN..=VOLUME_MAX`.
pub fn clamp_volume_exec(v: i32) -> (r: i32)
    ensures
        r == clamp_volume(v as int),
{
    if v < VOLUME_MIN {
        VOLUME_MIN
    } else if v > VOLUME_MAX {
        VOLUME_MAX
    } else {
        v
    }
}

/// The gain, in dB, that GStreamer is given for a volume.
pub fn volume_to_db(volume_wanted: i32) -> (r: i32)
    requires
        volume_wanted >= i32::MIN + VOLUME_ZERO_DB,
    ensures
        r == volume_wanted - VOLUME_ZERO_DB,
{
    volume_wanted - VOLUME_ZERO_DB
}

/// Changes the volume by config.volume_offset dB up (direction 1) or down (direction -1), or
/// leaves it (direction 0); the volume stays within `VOLUME_MIN..=VOLUME_MAX`.
pub fn adjust_volume(direction: i32, config: &Config, status_of_rradio: &mut PlayerStatus)
    requires
        direction == 1 || direction == -1 || direction == 0,
    ensures
        final(status_of_rradio).current_volume == clamp_volume(
            old(status_of_rradio).current_volume + config.volume_offset * direction,
        ),
        final(status_of_rradio).channel_number == old(status_of_rradio).channel_number,
        final(status_of_rradio).position_and_duration == old(status_of_rradio).position_and_duration,
        final(status_of_rradio).running_status == old(status_of_rradio).running_status,
{
    let wanted: i64 = status_of_rradio.current_volume as i64 + config.volume_offset as i64 * direction as i64;
    let clamped: i64 = if wanted < VOLUME_MIN as i64 {
        VOLUME_MIN as i64
    } else if wanted > VOLUME_MAX as i64 {
        VOLUME_MAX as i64
    } else {
        wanted
    };
    status_of_rradio.current_volume = clamped as i32;
}

/// What to play after `play_track` has stopped the player.
#[derive(Debug)]
pub enum TrackToPlay {
    /// Nothing: a ding is due but none is configured.
    Nothing,
    /// Play this URL of this channel, after a pause if one is asked for, then seek to this
    /// second if the media can seek and a seek is wanted.
    Play {
        channel_number: usize,
        url: String,
        pause_before_playing_ms: Option<u64>,
        seek_to_seconds: Option<u64>,
    },
}

/// A running status that plays the error ding rather than the channel.
pub open spec fn plays_error_ding(s: RunningStatus) -> bool {
    s == RunningStatus::NoChannel || s == RunningStatus::NoChannelRepeated || s
        == RunningStatus::LongMessageOnAll4Lines
}

/// The text of the error given when the track index is out of bounds.
pub open spec fn index_out_of_bounds_text(channel: nat, index: nat, len: nat) -> Seq<char> {
    "On channel "@ + decimal(channel) + " Index to tracks out of bounds; it is "@ + decimal(index)
        + " and the list has "@ + decimal(len) + " elements"@
}

/// Works out what `play_track` plays: the current track of the current channel, or, when
/// the status calls for the error ding, the first track of the ding channel; nothing when
/// a ding is due and none is configured; an error when the track index is out of bounds.
pub fn select_track(status_of_rradio: &PlayerStatus, config: &Config, seek_wanted_if_possible: bool) -> (r: Result<TrackToPlay, String>)
    requires
        status_of_rradio.wf(),
    ensures
        ({
            let s = *status_of_rradio;
            let ding = plays_error_ding(s.running_status);
            let channel = if ding { START_UP_DING_CHANNEL_NUMBER as int } else { s.channel_number as int };
            let index = if ding { 0 } else { s.current().index_to_current_track as int };
            let data = s.position_and_duration@[channel];
            if ding && config.aural_notifications.filename_error is None {
                r matches Ok(TrackToPlay::Nothing)
            } else if s.channel_number == START_UP_DING_CHANNEL_NUMBER && s.position_and_duration@[START_UP_DING_CHANNEL_NUMBER as int].channel_data.station_url@.len() == 0 {
                r matches Ok(TrackToPlay::Nothing)
            } else if data.index_to_current_track >= data.channel_data.station_url@.len() {
                r matches Err(m) && m@ == index_out_of_bounds_text(
                    channel as nat,
                    index as nat,
                    data.channel_data.station_url@.len(),
                )
            } else {
                r matches Ok(TrackToPlay::Play { channel_number, url, pause_before_playing_ms, seek_to_seconds }) && {
                    &&& channel_number == channel
                    &&& url@ == data.channel_data.station_url@[index]@
                    &&& pause_before_playing_ms == data.channel_data.pause_before_playing_ms
                    &&& seek_to_seconds == if seek_wanted_if_possible && (data.channel_data.source_type
                        == SourceType::Cd || data.channel_data.source_type == SourceType::Usb) {
                        Some((data.position / 1_000_000_000) as u64)
                    } else {
                        None
                    }
                }
            }
        }),
{
    let ding = status_of_rradio.running_status == RunningStatus::NoChannel || status_of_rradio.running_status
        == RunningStatus::NoChannelRepeated || status_of_rradio.running_status
        == RunningStatus::LongMessageOnAll4Lines;
    if ding && config.aural_notifications.filename_error.is_none() {
        return Ok(TrackToPlay::Nothing);
    }
    if status_of_rradio.channel_number == START_UP_DING_CHANNEL_NUMBER
        && status_of_rradio.position_and_duration[START_UP_DING_CHANNEL_NUMBER].channel_data.station_url.len() == 0 {
        return Ok(TrackToPlay::Nothing);
    }
    let mut index_to_current_track = status_of_rradio.position_and_duration[status_of_rradio.channel_number].index_to_current_track;
    let channel_number = if ding {
        index_to_current_track = 0;
        START_UP_DING_CHANNEL_NUMBER
    } else {
        status_of_rradio.channel_number
    };
    let data = &status_of_rradio.position_and_duration[channel_number];
    let len = data.channel_data.station_url.len();
    if data.index_to_current_track >= len {
        let mut m = String::from_str("On channel ");
        append_u64(&mut m, channel_number as u64);
        m.append(" Index to tracks out of bounds; it is ");
        append_u64(&mut m, index_to_current_track as u64);
        m.append(" and the list has ");
        append_u64(&mut m, len as u64);
        m.append(" elements");
        return Err(m);
    }
    let url = data.channel_data.station_url[index_to_current_track].clone();
    let seek_to_seconds = if seek_wanted_if_possible && (data.channel_data.source_type == SourceType::Cd
        || data.channel_data.source_type == SourceType::Usb) {
        Some(data.position / 1_000_000_000)
    } else {
        None
    };
    Ok(TrackToPlay::Play {
        channel_number,
        url,
        pause_before_playing_ms: data.channel_data.pause_before_playing_ms,
        seek_to_seconds,
    })
}

/// The screen shown while the buffer fills before a channel plays.
pub open spec fn filling_buffer_screen_spec(channel: nat) -> Seq<u8> {
    written(
        written(blank_screen(), crate::lcd::lcd_bytes("Filling buffer"@), 0, 20),
        crate::lcd::lcd_bytes("for channel "@ + decimal(channel)),
        20,
        60,
    )
}

/// The screen shown while the buffer fills before a channel plays: "Filling buffer" on the
/// first line and "for channel" with its number from the second line on.
pub fn filling_buffer_screen(channel_number: usize) -> (r: TextBuffer)
    ensures
        r.buffer@ == filling_buffer_screen_spec(channel_number as nat),
{
    let mut text_buffer = TextBuffer::new();
    text_buffer.write_text_to_lines("Filling buffer".as_bytes(), LineNum::Line1, 1);
    let mut m = String::from_str("for channel ");
    append_u64(&mut m, channel_number as u64);
    text_buffer.write_text_to_lines(m.as_str().as_bytes(), LineNum::Line2, 3);
    text_buffer
}

} // verus!
