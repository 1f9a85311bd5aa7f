//! Moving to the next or previous track, and the text of the second line of the screen.
use vstd::prelude::*;
use crate::get_channel_details::SourceType;
use crate::lcd::{MuteState, RunningStatus, ThrottledAsStruct, debug_text_spec, lcd_encode, mute_state_text};
use crate::player_status::PlayerStatus;
use crate::read_config::Config;
use crate::text::{append_u64, decimal};

verus! {

/// The number of tracks of a channel, not counting the ding that may end it.
pub open spec fn track_count(status: PlayerStatus) -> nat {
    let d = status.current().channel_data;
    if d.last_track_is_a_ding {
        (d.station_url@.len() - 1) as nat
    } else {
        d.station_url@.len()
    }
}

/// The second line of the screen before the throttled state and the mute state are added.
pub open spec fn line2_base(status: PlayerStatus) -> Seq<char> {
    let c = status.current();
    match c.channel_data.source_type {
        SourceType::Cd => "CD track "@ + decimal((c.index_to_current_track + 1) as nat) + " of "@
            + decimal(track_count(status)),
        SourceType::Usb => c.channel_data.organisation@ + " ("@ + decimal(
            (c.index_to_current_track + 1) as nat,
        ) + " of "@ + decimal(track_count(status)) + ")"@,
        SourceType::UrlList => c.channel_data.organisation@,
        SourceType::UnknownSource => match status.running_status {
            RunningStatus::NoChannel => "Channel "@ + decimal(status.channel_number as nat)
                + " does not exist"@,
            RunningStatus::NoChannelRepeated => "Channel "@ + decimal(status.channel_number as nat)
                + " really does not exist."@,
            RunningStatus::LongMessageOnAll4Lines => " got message "@ + debug_text_spec(
                status.line_1_data.text.bytes@,
            ) + " "@ + debug_text_spec(status.line_2_data.text.bytes@) + " "@ + debug_text_spec(
                status.line_34_data.text.bytes@,
            ),
            RunningStatus::ShuttingDown => "shutting down"@,
            _ => "Unknown source type"@,
        },
    }
}

/// The text for line 2: the base text, the throttled code when the Pi is throttled, then the
/// mute state.
pub open spec fn line2_text(status: PlayerStatus, throttled: ThrottledAsStruct, mute: MuteState) -> Seq<char> {
    let base = if throttled.pi_is_throttled {
        line2_base(status) + " "@ + throttled.result@
    } else {
        line2_base(status)
    };
    base + " "@ + mute_state_text(mute)
}

/// Generates the text for line 2 for the normal running case, ie streaming, USB or CD. Adds
/// the throttled state if the Pi is throttled, then the mute state of the amplifier.
pub fn generate_line2(status_of_rradio: &PlayerStatus, throttled_status: &ThrottledAsStruct, mute_state: MuteState) -> (r: String)
    requires
        status_of_rradio.wf(),
        status_of_rradio.current().index_to_current_track < usize::MAX,
        status_of_rradio.current().channel_data.last_track_is_a_ding ==> status_of_rradio.current().channel_data.station_url@.len() > 0,
    ensures
        r@ == line2_text(*status_of_rradio, *throttled_status, mute_state),
{
    let current = &status_of_rradio.position_and_duration[status_of_rradio.channel_number];
    let data = &current.channel_data;
    let mut line2 = String::new();
    match data.source_type {
        SourceType::Cd => {
            let mut num_tracks = data.station_url.len();
            if data.last_track_is_a_ding {
                num_tracks = num_tracks - 1;
            }
            line2.append("CD track ");
            append_u64(&mut line2, (current.index_to_current_track + 1) as u64);
            line2.append(" of ");
            append_u64(&mut line2, num_tracks as u64);
        },
        SourceType::Usb => {
            let mut num_tracks = data.station_url.len();
            if data.last_track_is_a_ding {
                num_tracks = num_tracks - 1;
            }
            line2.append(data.organisation.as_str());
            line2.append(" (");
            append_u64(&mut line2, (current.index_to_current_track + 1) as u64);
            line2.append(" of ");
            append_u64(&mut line2, num_tracks as u64);
            line2.append(")");
        },
        SourceType::UrlList => {
            line2.append(data.organisation.as_str());
        },
        SourceType::UnknownSource => {
            match status_of_rradio.running_status {
                RunningStatus::NoChannel => {
                    line2.append("Channel ");
                    append_u64(&mut line2, status_of_rradio.channel_number as u64);
                    line2.append(" does not exist");
                },
                RunningStatus::NoChannelRepeated => {
                    line2.append("Channel ");
                    append_u64(&mut line2, status_of_rradio.channel_number as u64);
                    line2.append(" really does not exist.");
                },
                RunningStatus::LongMessageOnAll4Lines => {
                    line2.append(" got message ");
                    let t1 = status_of_rradio.line_1_data.text.debug_text();
                    line2.append(t1.as_str());
                    line2.append(" ");
                    let t2 = status_of_rradio.line_2_data.text.debug_text();
                    line2.append(t2.as_str());
                    line2.append(" ");
                    let t3 = status_of_rradio.line_34_data.text.debug_text();
                    line2.append(t3.as_str());
                },
                RunningStatus::ShuttingDown => {
                    line2.append("shutting down");
                },
                _ => {
                    line2.append("Unknown source type");
                },
            }
        },
    }
    assert(line2@ =~= line2_base(*status_of_rradio));
    if throttled_status.pi_is_throttled {
        line2.append(" ");
        line2.append(throttled_status.result.as_str());
    }
    line2.append(" ");
    let m = mute_state.to_display_string();
    line2.append(m.as_str());
    assert(line2@ =~= line2_text(*status_of_rradio, *throttled_status, mute_state));
    line2
}

/// The index of the track after `index` in a list of `len` tracks, going round to the first.
pub open spec fn next_index(index: nat, len: nat) -> nat {
    (index + 1) % len
}

/// The index of the track before `index` in a list of `len` tracks, going round to the last.
pub open spec fn previous_index(index: nat, len: nat) -> nat {
    ((index + len - 1) as nat) % len
}

/// Moving on a track keeps the index inside the list.
pub proof fn lemma_next_index_in_range(index: nat, len: nat)
    requires
        len > 0,
    ensures
        next_index(index, len) < len,
        previous_index(index, len) < len,
{
}

/// Going back a track right after moving on to the next one returns to the track that was
/// playing.
pub proof fn lemma_previous_undoes_next(index: nat, len: nat)
    requires
        index < len,
    ensures
        previous_index(next_index(index, len), len) == index,
        next_index(previous_index(index, len), len) == index,
{
    if index + 1 == len {
        assert(next_index(index, len) == 0) by (nonlinear_arith)
            requires
                index + 1 == len,
                next_index(index, len) == (index + 1) % len,
        ;
    } else {
        assert(next_index(index, len) == index + 1) by (nonlinear_arith)
            requires
                index + 1 < len,
                next_index(index, len) == (index + 1) % len,
        ;
    }
    if index == 0 {
        assert(previous_index(index, len) == len - 1) by (nonlinear_arith)
            requires
                index == 0,
                len > 0,
                previous_index(index, len) == ((index + len - 1) as nat) % len,
        ;
    } else {
        assert(previous_index(index, len) == index - 1) by (nonlinear_arith)
            requires
                0 < index < len,
                previous_index(index, len) == ((index + len - 1) as nat) % len,
        ;
    }
    let n = next_index(index, len);
    let p = previous_index(index, len);
    assert(previous_index(n, len) == index) by (nonlinear_arith)
        requires
            n < len,
            index < len,
            (index + 1 == len && n == 0) || (index + 1 < len && n == index + 1),
            previous_index(n, len) == ((n + len - 1) as nat) % len,
    ;
    assert(next_index(p, len) == index) by (nonlinear_arith)
        requires
            p < len,
            index < len,
            (index == 0 && p == len - 1) || (index > 0 && p == index - 1),
            next_index(p, len) == (p + 1) % len,
    ;
}

/// `new` is `old` after `advance_to_next_track`: the current channel is on its next track
/// (after the last, back to the first), the player runs normally, the count of pings starts
/// again, and nothing else of the channels changes.
pub open spec fn next_track_step(new: PlayerStatus, old: PlayerStatus) -> bool {
    &&& new.wf()
    &&& new.running_status == RunningStatus::RunningNormally
    &&& new.ping_data.number_of_pings_to_this_channel == 0
    &&& new.channel_number == old.channel_number
    &&& new.current().index_to_current_track == next_index(
        old.current().index_to_current_track as nat,
        old.current().channel_data.station_url@.len(),
    )
    &&& forall|i: int| 0 <= i < new.position_and_duration@.len() && i != new.channel_number ==>
        #[trigger] new.position_and_duration@[i] == old.position_and_duration@[i]
    &&& new.current().channel_data == old.current().channel_data
    &&& new.current().position == old.current().position
}

/// Moves the current channel on to its next track (after the last, back to the first), marks
/// the player as running normally and restarts the count of pings, as `next_track` does before
/// it plays the track.
pub fn advance_to_next_track(status_of_rradio: &mut PlayerStatus)
    requires
        old(status_of_rradio).wf(),
        old(status_of_rradio).current().channel_data.station_url@.len() > 0,
        old(status_of_rradio).current().index_to_current_track < usize::MAX,
    ensures
        next_track_step(*final(status_of_rradio), *old(status_of_rradio)),
{
    status_of_rradio.running_status = RunningStatus::RunningNormally;
    status_of_rradio.ping_data.number_of_pings_to_this_channel = 0;
    let channel = status_of_rradio.channel_number;
    let len = status_of_rradio.position_and_duration[channel].channel_data.station_url.len();
    let index = status_of_rradio.position_and_duration[channel].index_to_current_track;
    status_of_rradio.position_and_duration[channel].index_to_current_track = (index + 1) % len;
}

/// What `previous_track` does after the time check.
#[derive(Debug, PartialEq, Eq, Structural)]
pub enum PreviousTrackAction {
    /// The track has played for a while: seek to its start.
    SeekToStart,
    /// The track has only just started: play the previous one.
    PlayPreviousTrack,
}

/// `new` is `old` after `go_back_a_track(config)` answered `r`: the player runs normally
/// and the count of pings starts again; a track that has played longer than
/// `goto_previous_track_time_delta` is to be sought to its start and keeps its index,
/// otherwise the current channel is on its previous track (from the first, to the last);
/// nothing else of the channels changes.
pub open spec fn previous_track_step(new: PlayerStatus, old: PlayerStatus, config: Config, r: PreviousTrackAction) -> bool {
    &&& new.wf()
    &&& new.running_status == RunningStatus::RunningNormally
    &&& new.ping_data.number_of_pings_to_this_channel == 0
    &&& new.channel_number == old.channel_number
    &&& (r == PreviousTrackAction::SeekToStart) == (old.current().position > config.goto_previous_track_time_delta)
    &&& new.current().index_to_current_track == if r == PreviousTrackAction::SeekToStart {
        old.current().index_to_current_track as nat
    } else {
        previous_index(old.current().index_to_current_track as nat, old.current().channel_data.station_url@.len())
    }
    &&& forall|i: int| 0 <= i < new.position_and_duration@.len() && i != new.channel_number ==>
        #[trigger] new.position_and_duration@[i] == old.position_and_duration@[i]
    &&& new.current().channel_data == old.current().channel_data
    &&& new.current().position == old.current().position
}

/// The first step of `previous_track`: starts afresh on the station, then, if the track has
/// played longer than `goto_previous_track_time_delta`, asks for a seek to its start;
/// otherwise moves to the previous track (from the first, to the last) and asks for it to
/// be played.
pub fn go_back_a_track(status_of_rradio: &mut PlayerStatus, config: &Config) -> (r: PreviousTrackAction)
    requires
        old(status_of_rradio).wf(),
        old(status_of_rradio).current().channel_data.station_url@.len() > 0,
        old(status_of_rradio).current().index_to_current_track as int + old(status_of_rradio).current().channel_data.station_url@.len() <= usize::MAX,
    ensures
        previous_track_step(*final(status_of_rradio), *old(status_of_rradio), *config, r),
{
    status_of_rradio.initialise_for_new_station();
    let channel = status_of_rradio.channel_number;
    if status_of_rradio.position_and_duration[channel].position > config.goto_previous_track_time_delta {
        return PreviousTrackAction::SeekToStart;
    }
    let len = status_of_rradio.position_and_duration[channel].channel_data.station_url.len();
    let index = status_of_rradio.position_and_duration[channel].index_to_current_track;
    status_of_rradio.position_and_duration[channel].index_to_current_track = (index + len - 1) % len;
    PreviousTrackAction::PlayPreviousTrack
}

/// Asking for the previous track right after moving on to the next one, before the new
/// track has played longer than `goto_previous_track_time_delta`, returns to the track that
/// was playing, with the player running normally and the count of pings started again.
pub proof fn lemma_previous_track_undoes_next_track(
    before: PlayerStatus,
    moved_on: PlayerStatus,
    back: PlayerStatus,
    config: Config,
    r: PreviousTrackAction,
)
    requires
        before.wf(),
        before.current().index_to_current_track < before.current().channel_data.station_url@.len(),
        before.current().position <= config.goto_previous_track_time_delta,
        next_track_step(moved_on, before),
        previous_track_step(back, moved_on, config, r),
    ensures
        r == PreviousTrackAction::PlayPreviousTrack,
        back.channel_number == before.channel_number,
        back.current().index_to_current_track == before.current().index_to_current_track,
        back.current().channel_data == before.current().channel_data,
        back.running_status == RunningStatus::RunningNormally,
        back.ping_data.number_of_pings_to_this_channel == 0,
{
    lemma_previous_undoes_next(
        before.current().index_to_current_track as nat,
        before.current().channel_data.station_url@.len(),
    );
}

/// For a CD or a memory stick, line 2 counts the tracks from one: it starts with the current
/// track's index plus one and the number of tracks without the ding.
pub proof fn lemma_line2_counts_tracks_from_one(status: PlayerStatus, throttled: ThrottledAsStruct, mute: MuteState)
    requires
        status.current().channel_data.last_track_is_a_ding ==> status.current().channel_data.station_url@.len() > 0,
    ensures
        ({
            let c = status.current();
            let len = c.channel_data.station_url@.len();
            let tracks = if c.channel_data.last_track_is_a_ding { (len - 1) as nat } else { len };
            let shown = decimal((c.index_to_current_track + 1) as nat) + " of "@ + decimal(tracks);
            let line = line2_text(status, throttled, mute);
            &&& c.channel_data.source_type == SourceType::Cd ==> line.subrange(0, (9 + shown.len() + 1) as int)
                == "CD track "@ + shown + " "@
            &&& c.channel_data.source_type == SourceType::Usb ==> line.subrange(
                0,
                (c.channel_data.organisation@.len() + 2 + shown.len() + 2) as int,
            ) == c.channel_data.organisation@ + " ("@ + shown + ") "@
        }),
{
    reveal_strlit("CD track ");
    reveal_strlit(" of ");
    reveal_strlit(" (");
    reveal_strlit(")");
    reveal_strlit(") ");
    reveal_strlit(" ");
    let c = status.current();
    let base = line2_base(status);
    let line = line2_text(status, throttled, mute);
    let rest = if throttled.pi_is_throttled {
        " "@ + throttled.result@ + " "@ + mute_state_text(mute)
    } else {
        " "@ + mute_state_text(mute)
    };
    assert(line =~= base + rest);
    assert(rest[0] == ' ');
    assert(line.subrange(0, (base.len() + 1) as int) =~= base + " "@);
    let len = c.channel_data.station_url@.len();
    let tracks = if c.channel_data.last_track_is_a_ding { (len - 1) as nat } else { len };
    assert(tracks == track_count(status));
    let shown = decimal((c.index_to_current_track + 1) as nat) + " of "@ + decimal(tracks);
    if c.channel_data.source_type == SourceType::Cd {
        assert(base =~= "CD track "@ + shown);
        assert("CD track "@.len() == 9);
        assert(base + " "@ =~= "CD track "@ + shown + " "@);
    }
    if c.channel_data.source_type == SourceType::Usb {
        assert(base =~= c.channel_data.organisation@ + " ("@ + shown + ")"@);
        assert(base + " "@ =~= c.channel_data.organisation@ + " ("@ + shown + ") "@);
    }
}

/// For a stream, line 2 starts with the name of the organisation, then a space.
pub proof fn lemma_line2_of_a_stream_names_the_organisation(status: PlayerStatus, throttled: ThrottledAsStruct, mute: MuteState)
    requires
        status.current().channel_data.source_type == SourceType::UrlList,
    ensures
        ({
            let name = status.current().channel_data.organisation@;
            line2_text(status, throttled, mute).subrange(0, (name.len() + 1) as int) == name + " "@
        }),
{
    reveal_strlit(" ");
    let name = status.current().channel_data.organisation@;
    let line = line2_text(status, throttled, mute);
    let rest = if throttled.pi_is_throttled {
        " "@ + throttled.result@ + " "@ + mute_state_text(mute)
    } else {
        " "@ + mute_state_text(mute)
    };
    assert(line =~= name + rest);
    assert(rest[0] == ' ');
    assert(line.subrange(0, (name.len() + 1) as int) =~= name + " "@);
}

} // verus!
