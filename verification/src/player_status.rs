//! The state of the player: which channel plays, its tracks and position, and the texts shown.
use vstd::prelude::*;
use crate::get_channel_details::{ChannelFileDataDecoded, SourceType};
use crate::lcd::{RunningStatus, ScrollData};
use crate::network::NetworkDataNew;
use crate::ping::PingData;
use crate::podcast::PodcastDataAllStations;
use crate::read_config::Config;

verus! {

/// The maximum possible as the channel number is 2 decimal digits. (The ding channel is 101,
/// so the user cannot enter it.)
pub const NUMBER_OF_POSSIBLE_CHANNELS: usize = 100;
/// PODCAST_CHANNEL_NUMBER must be less than START_UP_DING_CHANNEL_NUMBER or else we do not get position & duration
pub const PODCAST_CHANNEL_NUMBER: usize = 100;
/// The channel that plays the start-up and error dings.
pub const START_UP_DING_CHANNEL_NUMBER: usize = 101;
/// The number of channels whose data is kept: the user's, the podcast one and the ding one.
pub const NUMBER_OF_CHANNEL_SLOTS: usize = 102;

/// The state of the GStreamer pipeline.
#[derive(Debug, PartialEq, Eq, Structural, Clone, Copy)]
pub enum GstState {
    VoidPending,
    Null,
    Ready,
    Paused,
    Playing,
}

/// stores the decoded channel file data, the position of the tracks, ie the time since
/// starting to play it, &, if it is a streaming channel, the duration of the channel.
/// Times are in nanoseconds.
#[derive(Debug)]
pub struct RealTimeDataOnOneChannel {
    pub artist: String,
    pub index_to_current_track: usize,
    pub position: u64,
    /// address_to_ping is derived from the first station in the list
    /// after stripping off the prefix & suffix
    pub address_to_ping: String,
    pub duration: Option<u64>,
    pub channel_data: ChannelFileDataDecoded,
}

impl RealTimeDataOnOneChannel {
    /// No channel data yet; the address pinged is 8.8.8.8.
    pub fn new() -> (r: Self)
        ensures
            r.artist@ == Seq::<char>::empty(),
            r.index_to_current_track == 0,
            r.position == 0,
            r.duration is None,
            r.address_to_ping@ == "8.8.8.8"@,
            r.channel_data.station_url@.len() == 0,
            r.channel_data.source_type == SourceType::UnknownSource,
            !r.channel_data.data_is_initialised,
    {
        Self {
            channel_data: ChannelFileDataDecoded::new(),
            artist: String::new(),
            index_to_current_track: 0,
            position: 0,
            duration: None,
            address_to_ping: String::from_str("8.8.8.8"),
        }
    }
}

impl Default for RealTimeDataOnOneChannel {
    /// No channel data yet, as `new` gives.
    fn default() -> (r: Self)
        ensures
            r.artist@ == Seq::<char>::empty(),
            r.index_to_current_track == 0,
            r.position == 0,
            r.duration is None,
            r.address_to_ping@ == "8.8.8.8"@,
            r.channel_data.station_url@.len() == 0,
            r.channel_data.source_type == SourceType::UnknownSource,
            !r.channel_data.data_is_initialised,
    {
        RealTimeDataOnOneChannel::new()
    }
}

/// Calls `chrono::Utc::now().timestamp_millis()`. Nothing is claimed of the result: it is
/// the time.
#[verifier::external_body]
pub fn now_utc_ms() -> (r: i64) {
    chrono::Utc::now().timestamp_millis()
}

/// A struct listing all information needed to display the status of rradio.
#[derive(Debug)]
pub struct PlayerStatus {
    pub toml_error: Option<String>,
    /// Specifies if we are starting up, in which case we want to see the startup message,
    /// shutting down or running normally, or there is a bad error
    pub running_status: RunningStatus,
    pub startup_folder: String,
    /// in the range 00 to 99, normally, but the podcast channel is 100 and the ding channel 101
    pub channel_number: usize,
    pub current_volume: i32,
    pub gstreamer_state: GstState,
    pub buffering_percent: i32,
    pub podcast_data_from_toml: PodcastDataAllStations,
    pub latest_podcast_string: Option<String>,
    /// index_of_podcast, as in which podcast has been selected
    pub podcast_index: i32,
    /// stores SSID, local IP address & gateway address
    pub network_data: NetworkDataNew,
    pub ping_data: PingData,
    pub all_4lines: ScrollData,
    pub line_1_data: ScrollData,
    pub line_2_data: ScrollData,
    pub line_34_data: ScrollData,
    /// in milliseconds since the Unix epoch
    pub time_started_playing_current_station: i64,
    /// Stores the channel data of every channel, the podcast channel and the ding channel
    pub position_and_duration: Vec<RealTimeDataOnOneChannel>,
}

impl PlayerStatus {
    /// There is data for every channel and the current channel is one of them.
    pub open spec fn wf(&self) -> bool {
        &&& self.position_and_duration@.len() == NUMBER_OF_CHANNEL_SLOTS
        &&& self.channel_number < NUMBER_OF_CHANNEL_SLOTS
    }

    /// The data of the current channel.
    pub open spec fn current(&self) -> RealTimeDataOnOneChannel {
        self.position_and_duration@[self.channel_number as int]
    }

    /// The status at start-up, before any channel has been chosen.
    pub fn new(config: &Config) -> (r: PlayerStatus)
        ensures
            r.wf(),
            r.toml_error is None,
            r.running_status == RunningStatus::Startingup,
            r.startup_folder@ == Seq::<char>::empty(),
            r.channel_number == NUMBER_OF_POSSIBLE_CHANNELS,
            r.current_volume == config.initial_volume,
            r.gstreamer_state == GstState::Null,
            r.buffering_percent == 0,
            r.podcast_data_from_toml.podcast_data_for_all_stations@.len() == 0,
            r.latest_podcast_string is None,
            r.podcast_index == 0,
            !r.network_data.is_valid,
            !r.ping_data.can_send_ping,
            r.ping_data.number_of_pings_to_this_channel == 0,
            r.all_4lines.text.bytes@.len() == 0 && r.all_4lines.num_lines == 4,
            r.line_1_data.text.bytes@.len() == 0 && r.line_1_data.num_lines == 1,
            r.line_2_data.text.bytes@.len() == 0 && r.line_2_data.num_lines == 1,
            r.line_34_data.text.bytes@.len() == 0 && r.line_34_data.num_lines == 2,
            forall|i: int| 0 <= i < NUMBER_OF_CHANNEL_SLOTS ==> {
                let c = #[trigger] r.position_and_duration@[i];
                &&& c.index_to_current_track == 0
                &&& c.position == 0
                &&& c.duration is None
                &&& c.channel_data.station_url@.len() == 0
                &&& c.channel_data.source_type == SourceType::UnknownSource
                &&& !c.channel_data.data_is_initialised
            },
    {
        let mut position_and_duration: Vec<RealTimeDataOnOneChannel> = Vec::new();
        let mut i: usize = 0;
        while i < NUMBER_OF_CHANNEL_SLOTS
            invariant
                i <= NUMBER_OF_CHANNEL_SLOTS,
                position_and_duration@.len() == i,
                forall|k: int| 0 <= k < i ==> {
                    let c = #[trigger] position_and_duration@[k];
                    &&& c.index_to_current_track == 0
                    &&& c.position == 0
                    &&& c.duration is None
                    &&& c.channel_data.station_url@.len() == 0
                    &&& c.channel_data.source_type == SourceType::UnknownSource
                    &&& !c.channel_data.data_is_initialised
                },
            decreases NUMBER_OF_CHANNEL_SLOTS - i,
        {
            position_and_duration.push(RealTimeDataOnOneChannel::new());
            i = i + 1;
        }
        let all_4lines = ScrollData::new("", 4);
        let line_1_data = ScrollData::new("", 1);
        let line_2_data = ScrollData::new("", 1);
        let line_34_data = ScrollData::new("", 2);
        proof {
            reveal_strlit("");
        }
        PlayerStatus {
            toml_error: None,
            running_status: RunningStatus::Startingup,
            startup_folder: String::new(),
            channel_number: NUMBER_OF_POSSIBLE_CHANNELS,
            current_volume: config.initial_volume,
            gstreamer_state: GstState::Null,
            buffering_percent: 0,
            podcast_data_from_toml: PodcastDataAllStations { podcast_data_for_all_stations: Vec::new() },
            latest_podcast_string: None,
            podcast_index: 0,
            network_data: NetworkDataNew::new(),
            ping_data: PingData::new(),
            all_4lines,
            line_1_data,
            line_2_data,
            line_34_data,
            time_started_playing_current_station: now_utc_ms(),
            position_and_duration,
        }
    }

    /// Initialises for a new station: records the time, sets RunningStatus::RunningNormally
    /// and number_of_pings_to_this_channel = 0
    pub fn initialise_for_new_station(&mut self)
        ensures
            final(self).running_status == RunningStatus::RunningNormally,
            final(self).ping_data.number_of_pings_to_this_channel == 0,
            final(self).ping_data.can_send_ping == old(self).ping_data.can_send_ping,
            final(self).channel_number == old(self).channel_number,
            final(self).position_and_duration == old(self).position_and_duration,
            final(self).current_volume == old(self).current_volume,
            final(self).toml_error == old(self).toml_error,
            final(self).line_1_data == old(self).line_1_data,
            final(self).line_2_data == old(self).line_2_data,
            final(self).line_34_data == old(self).line_34_data,
            final(self).all_4lines == old(self).all_4lines,
            final(self).network_data == old(self).network_data,
            final(self).gstreamer_state == old(self).gstreamer_state,
    {
        self.time_started_playing_current_station = now_utc_ms();
        self.running_status = RunningStatus::RunningNormally;
        self.ping_data.number_of_pings_to_this_channel = 0;
    }
}

} // verus!
