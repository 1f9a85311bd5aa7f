//! Which address is pinged, when, and what a ping's output says.
use vstd::prelude::*;
use crate::get_channel_details::SourceType;
use crate::lcd::RunningStatus;
use crate::player_status::{NUMBER_OF_POSSIBLE_CHANNELS, PlayerStatus};
use crate::read_config::Config;
use crate::text::{split_once, split_once_exec, starts_with, str_eq, str_starts_with};

verus! {

/// Stores the address being pinged, either local, remote or nothing
#[derive(Debug, PartialEq, Eq, Structural, Clone, Copy)]
pub enum PingWhere {
    Local,
    Remote,
    Nothing,
}

impl PingWhere {
    /// converts to a long string, as used at startup
    pub fn to_long_string(&self) -> (r: String)
        ensures
            r@ == match *self {
                PingWhere::Local => "Local ping "@,
                PingWhere::Remote => "Remote Ping "@,
                PingWhere::Nothing => "No destination "@,
            },
    {
        match self {
            PingWhere::Local => String::from_str("Local ping "),
            PingWhere::Remote => String::from_str("Remote Ping "),
            PingWhere::Nothing => String::from_str("No destination "),
        }
    }

    /// converts to a short string, as used on line1 when things work OK
    pub fn to_short_string(&self) -> (r: String)
        ensures
            r@ == match *self {
                PingWhere::Local => "LocPing"@,
                PingWhere::Remote => "RemPing"@,
                PingWhere::Nothing => "No dest"@,
            },
    {
        match self {
            PingWhere::Local => String::from_str("LocPing"),
            PingWhere::Remote => String::from_str("RemPing"),
            PingWhere::Nothing => String::from_str("No dest"),
        }
    }

    /// converts to a single character, when space is very much at a premium
    pub fn to_single_character(&self) -> (r: String)
        ensures
            r@ == match *self {
                PingWhere::Local => "L"@,
                PingWhere::Remote => "R"@,
                PingWhere::Nothing => "N"@,
            },
    {
        match self {
            PingWhere::Local => String::from_str("L"),
            PingWhere::Remote => String::from_str("R"),
            PingWhere::Nothing => String::from_str("N"),
        }
    }
}

/// Used to store the data about the pings
#[derive(Debug)]
pub struct PingData {
    /// true if we can send a ping
    pub can_send_ping: bool,
    /// time the last ping was sent, in milliseconds since the Unix epoch; used to ensure we do
    /// not ping too often
    pub last_ping_time_of_day: i64,
    /// the destination of the last ping answered: local, remote or nothing
    pub destination: PingWhere,
    pub number_of_pings_to_this_channel: u32,
}

impl PingData {
    /// No ping sent yet.
    pub fn new() -> (r: Self)
        ensures
            !r.can_send_ping,
            r.last_ping_time_of_day == 0,
            r.destination == PingWhere::Nothing,
            r.number_of_pings_to_this_channel == 0,
    {
        PingData {
            can_send_ping: false,
            last_ping_time_of_day: 0,
            destination: PingWhere::Nothing,
            number_of_pings_to_this_channel: 0,
        }
    }
}

/// The pings to a channel go to the router rather than the remote site every other time, and
/// always once more than `max_number_of_remote_pings` have been sent.
pub open spec fn pings_go_to_gateway(number_of_pings: u32, max_number_of_remote_pings: u32) -> bool {
    number_of_pings % 2 == 1 || number_of_pings > max_number_of_remote_pings
}

/// Whether the next ping goes to the router rather than to the remote site.
pub fn ping_gateway_next(number_of_pings: u32, max_number_of_remote_pings: u32) -> (r: bool)
    ensures
        r == pings_go_to_gateway(number_of_pings, max_number_of_remote_pings),
{
    assert(number_of_pings & 1 == number_of_pings % 2) by (bit_vector);
    (number_of_pings & 1 != 0) || (number_of_pings > max_number_of_remote_pings)
}

/// A ping may be sent again once the last was sent more than three seconds ago.
pub open spec fn ping_is_due(now_ms: i64, last_ping_time_of_day: i64) -> bool {
    now_ms - last_ping_time_of_day > 3000
}

/// Whether the last ping was sent more than three seconds before `now_ms`.
pub fn ping_due(now_ms: i64, last_ping_time_of_day: i64) -> (r: bool)
    ensures
        r == ping_is_due(now_ms, last_ping_time_of_day),
{
    (now_ms as i128) - (last_ping_time_of_day as i128) > 3000
}

/// The ping's destination and the text of its time, taken from the output of `ping`: the
/// output is `PING <address> ...`, and the minimum time stands between `mdev = ` and the
/// next `/`. The destination is local when the address is the gateway's.
pub open spec fn parse_ping_output_spec(output: Seq<char>, gateway: Seq<char>) -> (PingWhere, Seq<char>) {
    let after_prefix = if starts_with(output, "PING "@) {
        output.subrange("PING "@.len() as int, output.len() as int)
    } else {
        "Error could not find prefix"@
    };
    let (ip_address_only, time_data) = match split_once(after_prefix, " "@) {
        Some(p) => p,
        None => (Seq::empty(), Seq::empty()),
    };
    let destination = if ip_address_only == gateway {
        PingWhere::Local
    } else {
        PingWhere::Remote
    };
    let time_data2 = match split_once(time_data, "mdev = "@) {
        Some(p) => p.1,
        None => Seq::empty(),
    };
    let time_as_str = match split_once(time_data2, "/"@) {
        Some(p) => p.0,
        None => Seq::empty(),
    };
    (destination, time_as_str)
}

/// Reads the destination and the text of the time of a ping from the output of `ping`.
pub fn parse_ping_output(output: &str, gateway_ip_address: &str) -> (r: (PingWhere, String))
    ensures
        (r.0, r.1@) == parse_ping_output_spec(output@, gateway_ip_address@),
{
    let prefix = "PING ";
    let after_prefix = if str_starts_with(output, prefix) {
        proof {
            reveal_strlit("PING ");
        }
        let n = output.unicode_len();
        String::from_str(output.substring_char(5, n))
    } else {
        String::from_str("Error could not find prefix")
    };
    let (ip_address_only, time_data) = match split_once_exec(after_prefix.as_str(), " ") {
        Some(p) => p,
        None => (String::new(), String::new()),
    };
    let destination = if str_eq(ip_address_only.as_str(), gateway_ip_address) {
        PingWhere::Local
    } else {
        PingWhere::Remote
    };
    let time_data2 = match split_once_exec(time_data.as_str(), "mdev = ") {
        Some((_, after)) => after,
        None => String::new(),
    };
    let time_as_str = match split_once_exec(time_data2.as_str(), "/") {
        Some((before, _)) => before,
        None => String::new(),
    };
    (destination, time_as_str)
}


/// The first step of `send_ping`: records when the ping is sent, counts it, and forbids
/// another until its answer is in. Gives the address to ping: the router's every other time
/// and once more than `max_number_of_remote_pings` were sent, else the channel's address.
pub fn begin_ping(status_of_rradio: &mut PlayerStatus, config: &Config, now_ms: i64) -> (address: String)
    requires
        old(status_of_rradio).wf(),
        old(status_of_rradio).ping_data.number_of_pings_to_this_channel < u32::MAX,
    ensures
        final(status_of_rradio).wf(),
        address@ == if pings_go_to_gateway(
            old(status_of_rradio).ping_data.number_of_pings_to_this_channel,
            config.max_number_of_remote_pings,
        ) {
            old(status_of_rradio).network_data.gateway_ip_address@
        } else {
            old(status_of_rradio).current().address_to_ping@
        },
        final(status_of_rradio).ping_data.last_ping_time_of_day == now_ms,
        !final(status_of_rradio).ping_data.can_send_ping,
        final(status_of_rradio).ping_data.number_of_pings_to_this_channel
            == old(status_of_rradio).ping_data.number_of_pings_to_this_channel + 1,
        final(status_of_rradio).ping_data.destination == old(status_of_rradio).ping_data.destination,
        final(status_of_rradio).position_and_duration == old(status_of_rradio).position_and_duration,
        final(status_of_rradio).channel_number == old(status_of_rradio).channel_number,
        final(status_of_rradio).running_status == old(status_of_rradio).running_status,
{
    status_of_rradio.ping_data.last_ping_time_of_day = now_ms;
    let number_of_pings = status_of_rradio.ping_data.number_of_pings_to_this_channel;
    let address = if ping_gateway_next(number_of_pings, config.max_number_of_remote_pings) {
        status_of_rradio.network_data.gateway_ip_address.clone()
    } else {
        status_of_rradio.position_and_duration[status_of_rradio.channel_number].address_to_ping.clone()
    };
    status_of_rradio.ping_data.can_send_ping = false;
    status_of_rradio.ping_data.number_of_pings_to_this_channel = number_of_pings + 1;
    address
}

/// Whether a ping may be sent now: the last was sent more than three seconds ago, and the
/// current channel is one typed by the user (or the podcast channel) and is a stream, or the
/// player is starting up.
pub open spec fn may_ping_again(status: PlayerStatus, now_ms: i64) -> bool {
    &&& ping_is_due(now_ms, status.ping_data.last_ping_time_of_day)
    &&& status.channel_number <= NUMBER_OF_POSSIBLE_CHANNELS
    &&& (status.current().channel_data.source_type == SourceType::UrlList || status.running_status
        == RunningStatus::Startingup)
}

/// `see_if_there_is_a_ping_response`: allows the next ping when one may be sent now, and
/// otherwise changes nothing.
pub fn see_if_there_is_a_ping_response(status_of_rradio: &mut PlayerStatus, now_ms: i64)
    requires
        old(status_of_rradio).wf(),
    ensures
        final(status_of_rradio).wf(),
        may_ping_again(*old(status_of_rradio), now_ms) ==> final(status_of_rradio).ping_data.can_send_ping,
        !may_ping_again(*old(status_of_rradio), now_ms) ==> final(status_of_rradio).ping_data.can_send_ping
            == old(status_of_rradio).ping_data.can_send_ping,
        final(status_of_rradio).ping_data.last_ping_time_of_day == old(status_of_rradio).ping_data.last_ping_time_of_day,
        final(status_of_rradio).ping_data.number_of_pings_to_this_channel
            == old(status_of_rradio).ping_data.number_of_pings_to_this_channel,
        final(status_of_rradio).position_and_duration == old(status_of_rradio).position_and_duration,
        final(status_of_rradio).channel_number == old(status_of_rradio).channel_number,
{
    let channel = status_of_rradio.channel_number;
    if ping_due(now_ms, status_of_rradio.ping_data.last_ping_time_of_day) && channel <= NUMBER_OF_POSSIBLE_CHANNELS
        && (status_of_rradio.position_and_duration[channel].channel_data.source_type == SourceType::UrlList
        || status_of_rradio.running_status == RunningStatus::Startingup) {
        status_of_rradio.ping_data.can_send_ping = true;
    }
}

/// `get_ping_time`'s part on the player's status: an error unless a ping may be sent, else
/// the destination read from the ping's output is kept, and the text of the time is given
/// back (see `parse_ping_output_spec`).
pub fn record_ping_output(status_of_rradio: &mut PlayerStatus, output: &str) -> (r: Result<String, String>)
    ensures
        !old(status_of_rradio).ping_data.can_send_ping ==> (r matches Err(e) && e@
            == "Cannot get ping time if a valid ping has not been returned"@)
            && final(status_of_rradio).ping_data == old(status_of_rradio).ping_data,
        old(status_of_rradio).ping_data.can_send_ping ==> {
            let parsed = parse_ping_output_spec(output@, old(status_of_rradio).network_data.gateway_ip_address@);
            &&& r matches Ok(t) && t@ == parsed.1
            &&& final(status_of_rradio).ping_data.destination == parsed.0
            &&& final(status_of_rradio).ping_data.can_send_ping
            &&& final(status_of_rradio).ping_data.last_ping_time_of_day == old(status_of_rradio).ping_data.last_ping_time_of_day
            &&& final(status_of_rradio).ping_data.number_of_pings_to_this_channel
                == old(status_of_rradio).ping_data.number_of_pings_to_this_channel
        },
        final(status_of_rradio).position_and_duration == old(status_of_rradio).position_and_duration,
        final(status_of_rradio).channel_number == old(status_of_rradio).channel_number,
{
    if !status_of_rradio.ping_data.can_send_ping {
        return Err(String::from_str("Cannot get ping time if a valid ping has not been returned"));
    }
    let (destination, time_text) = parse_ping_output(output, status_of_rradio.network_data.gateway_ip_address.as_str());
    status_of_rradio.ping_data.destination = destination;
    Ok(time_text)
}

/// While the player is starting up, a ping may be sent once more than three seconds have
/// passed since the last one, on any channel number up to the podcast channel, whatever the
/// source of the channel.
pub proof fn lemma_ping_allowed_while_starting_up(status: PlayerStatus, now_ms: i64)
    requires
        status.running_status == RunningStatus::Startingup,
        now_ms - status.ping_data.last_ping_time_of_day > 3000,
        status.channel_number <= 100,
    ensures
        may_ping_again(status, now_ms),
{
}

/// A stream chosen by the user may be pinged once more than three seconds have passed since
/// the last ping.
pub proof fn lemma_ping_allowed_for_a_stream(status: PlayerStatus, now_ms: i64)
    requires
        status.current().channel_data.source_type == SourceType::UrlList,
        now_ms - status.ping_data.last_ping_time_of_day > 3000,
        status.channel_number <= 100,
    ensures
        may_ping_again(status, now_ms),
{
}

/// No ping is allowed within three seconds of the last one, nor past the podcast channel,
/// nor, once started, on a channel that is not a stream.
pub proof fn lemma_ping_refused(status: PlayerStatus, now_ms: i64)
    requires
        now_ms - status.ping_data.last_ping_time_of_day <= 3000 || status.channel_number > 100 || (
        status.current().channel_data.source_type != SourceType::UrlList && status.running_status
            != RunningStatus::Startingup),
    ensures
        !may_ping_again(status, now_ms),
{
}

} // verus!
