//! What each screen of the LCD shows, filled into a text buffer from the player's status.
use vstd::prelude::*;
use crate::get_channel_details::SourceType;
use crate::lcd::{
    LineNum, RunningStatus, TextBuffer, ThrottledAsStruct, bytes_from, lcd_bytes, lcd_encode,
    written, blank_screen, encode_for_lcd, lemma_written_changes_only_its_range,
};
use crate::player_status::{GstState, PlayerStatus};
use crate::read_config::Config;
use crate::text::{append_i64, append_padded_left, append_u64, decimal, i64_to_string, pad_left, signed_decimal};

verus! {

/// The texts a screen shows that come from the clock and the hardware.
#[derive(Debug)]
pub struct ScreenTexts {
    /// the date and time, as "%d %b %y %H:%M:%S"
    pub date_and_time: String,
    /// the CPU temperature and the Wi-Fi strength
    pub temperature_and_wifi: String,
    /// the time of the last ping in long form
    pub ping_time_long: String,
    /// the time of the last ping in short form
    pub ping_time_short: String,
    /// the CPU temperature in degrees Celsius
    pub cpu_temperature: i32,
    /// the throttled state of the Pi and the time
    pub throttled_status_and_time: String,
    /// the time the program was compiled
    pub compile_time: String,
    /// whether the screen for a channel not found twice shows the compile time and SSID
    /// (rather than the IP addresses); it alternates every four seconds
    pub show_compile_time_and_ssid: bool,
}

/// The number of digits the screen allows for a number of seconds.
pub open spec fn digit_count(n: nat) -> nat {
    if n <= 9 {
        1
    } else if n <= 99 {
        2
    } else if n <= 999 {
        3
    } else {
        4
    }
}

/// The volume as shown: "Vol" and the volume right-aligned, or the state of the player when
/// it is neither playing nor stopped.
pub open spec fn vol_text(volume: i32, state: GstState) -> Seq<char> {
    match state {
        GstState::Playing | GstState::Null => {
            let width: nat = if volume >= 99 {
                4
            } else if volume >= 9 {
                3
            } else {
                2
            };
            "Vol"@ + pad_left(signed_decimal(volume as int), width, ' ')
        },
        GstState::VoidPending => "Void"@,
        GstState::Paused => "Paused"@,
        GstState::Ready => "Ready"@,
    }
}

/// returns the volume as a String if playing, if not the gstreamer state as a String
pub fn get_vol_string(status_of_rradio: &PlayerStatus) -> (r: String)
    ensures
        r@ == vol_text(status_of_rradio.current_volume, status_of_rradio.gstreamer_state),
{
    match status_of_rradio.gstreamer_state {
        GstState::Playing | GstState::Null => {
            let volume = status_of_rradio.current_volume;
            let width: usize = if volume >= 99 {
                4
            } else if volume >= 9 {
                3
            } else {
                2
            };
            let digits = i64_to_string(volume as i64);
            let mut r = String::from_str("Vol");
            append_padded_left(&mut r, digits.as_str(), width, ' ');
            r
        },
        GstState::VoidPending => String::from_str("Void"),
        GstState::Paused => String::from_str("Paused"),
        GstState::Ready => String::from_str("Ready"),
    }
}

/// Gets the throttled status & time; if the Pi is not throttled it returns "NotThrottled"
/// followed by the time of day, otherwise it returns the throttled code followed by the time
/// of day and a space
pub fn get_throttled_status_and_time(throttled_status: &ThrottledAsStruct, time_of_day: &str) -> (r: String)
    ensures
        r@ == if !throttled_status.pi_is_throttled {
            "NotThrottled"@ + time_of_day@
        } else {
            throttled_status.result@ + time_of_day@ + " "@
        },
{
    if !throttled_status.pi_is_throttled {
        let mut r = String::from_str("NotThrottled");
        r.append(time_of_day);
        r
    } else {
        let mut r = throttled_status.result.clone();
        r.append(time_of_day);
        r.append(" ");
        r
    }
}

/// Returns the temperature of the CPU followed by Wi-Fi signal strength.
pub fn get_temperature_and_wifi_strength_text(cpu_temperature: i32, wifi_signal_strength: &str) -> (r: String)
    ensures
        r@ == "CPU Temp "@ + signed_decimal(cpu_temperature as int) + "C WiFi"@ + wifi_signal_strength@,
{
    let mut r = String::from_str("CPU Temp ");
    append_i64(&mut r, cpu_temperature as i64);
    r.append("C WiFi");
    r.append(wifi_signal_strength);
    r
}

/// Writes a text into the buffer (see `TextBuffer::write_text_to_buffer`).
fn write_str(text_buffer: &mut TextBuffer, text: &str, start: usize, octet_count: usize)
    ensures
        final(text_buffer).buffer@ == written(old(text_buffer).buffer@, lcd_bytes(text@), start as int, octet_count as int),
{
    text_buffer.write_text_to_buffer(text.as_bytes(), start, octet_count);
}

/// The screen at start-up: the first line (IP address and volume) once the network is
/// known, the ping time once two pings have been sent, the date and time, and the
/// temperature and Wi-Fi strength.
pub open spec fn starting_screen(screen: Seq<u8>, status: PlayerStatus, texts: ScreenTexts) -> Seq<u8> {
    let s1 = if status.network_data.is_valid {
        written(screen, bytes_from(status.line_1_data.text.bytes@, status.line_1_data.scroll_position as nat), 0, 20)
    } else {
        screen
    };
    let ping_message = if status.ping_data.number_of_pings_to_this_channel > 1 {
        texts.ping_time_long@
    } else {
        Seq::empty()
    };
    let s2 = written(s1, lcd_bytes(ping_message), 20, 20);
    let s3 = written(s2, lcd_bytes(texts.date_and_time@), 40, 20);
    written(s3, lcd_bytes(texts.temperature_and_wifi@), 60, 20)
}

/// Fills the text buffer with the start up text before any channel has been selected
pub fn fill_text_buffer_when_starting(text_buffer: &mut TextBuffer, status_of_rradio: &PlayerStatus, texts: &ScreenTexts)
    ensures
        final(text_buffer).buffer@ == starting_screen(old(text_buffer).buffer@, *status_of_rradio, *texts),
{
    if status_of_rradio.network_data.is_valid {
        let b = status_of_rradio.line_1_data.bytes();
        text_buffer.write_text_to_single_line(b.as_slice(), LineNum::Line1);
    }
    if status_of_rradio.ping_data.number_of_pings_to_this_channel > 1 {
        write_str(text_buffer, texts.ping_time_long.as_str(), 20, 20);
    } else {
        proof {
            reveal_strlit("");
        }
        write_str(text_buffer, "", 20, 20);
    }
    write_str(text_buffer, texts.date_and_time.as_str(), 40, 20);
    write_str(text_buffer, texts.temperature_and_wifi.as_str(), 60, 20);
}

/// Fills the supplied text buffer with text to say that the program is shutting down
pub fn fill_text_buffer_when_shutting_down(text_buffer: &mut TextBuffer)
    ensures
        final(text_buffer).buffer@ == written(
            written(
                written(old(text_buffer).buffer@, lcd_bytes("Ending screen driver"@), 0, 20),
                lcd_bytes("Computer not shut"@),
                40,
                20,
            ),
            lcd_bytes("down"@),
            60,
            20,
        ),
{
    text_buffer.write_text_to_single_line("Ending screen driver".as_bytes(), LineNum::Line1);
    text_buffer.write_text_to_single_line("Computer not shut".as_bytes(), LineNum::Line3);
    text_buffer.write_text_to_single_line("down".as_bytes(), LineNum::Line4);
}

/// Fills the screen with the long message stored in status_of_rradio.all_4lines, from the
/// first line on, over as many lines as the message has.
pub fn long_message(text_buffer: &mut TextBuffer, status_of_rradio: &PlayerStatus)
    requires
        status_of_rradio.all_4lines.num_lines * 20 <= usize::MAX,
    ensures
        final(text_buffer).buffer@ == written(
            old(text_buffer).buffer@,
            bytes_from(status_of_rradio.all_4lines.text.bytes@, status_of_rradio.all_4lines.scroll_position as nat),
            0,
            status_of_rradio.all_4lines.num_lines * 20int,
        ),
{
    let b = status_of_rradio.all_4lines.bytes();
    text_buffer.write_text_to_lines(b.as_slice(), LineNum::Line1, status_of_rradio.all_4lines.num_lines);
}

/// The screen when the user chose a channel that does not exist: the channel and the volume,
/// the local IP address, the date and time, the temperature and Wi-Fi strength.
pub open spec fn channel_not_found_screen(screen: Seq<u8>, status: PlayerStatus, texts: ScreenTexts) -> Seq<u8> {
    let s1 = written(screen, lcd_bytes("No station "@ + decimal(status.channel_number as nat)), 0, 13);
    let s2 = written(s1, lcd_bytes(vol_text(status.current_volume, status.gstreamer_state)), 13, 7);
    let s3 = written(s2, lcd_bytes(status.network_data.local_ip_address@), 20, 20);
    let s4 = written(s3, lcd_bytes(texts.date_and_time@), 40, 20);
    written(s4, lcd_bytes(texts.temperature_and_wifi@), 60, 20)
}

/// Outputs error message with channel number, IP address, data & time temperature & signal strength;
/// used when the not found occurs for a wrong channel that is not the same as the previous channel
pub fn fill_text_buffer_channel_not_found(text_buffer: &mut TextBuffer, status_of_rradio: &PlayerStatus, texts: &ScreenTexts)
    ensures
        final(text_buffer).buffer@ == channel_not_found_screen(old(text_buffer).buffer@, *status_of_rradio, *texts),
{
    let mut m = String::from_str("No station ");
    append_u64(&mut m, status_of_rradio.channel_number as u64);
    write_str(text_buffer, m.as_str(), 0, 13);
    let v = get_vol_string(status_of_rradio);
    write_str(text_buffer, v.as_str(), 13, 7);
    write_str(text_buffer, status_of_rradio.network_data.local_ip_address.as_str(), 20, 20);
    write_str(text_buffer, texts.date_and_time.as_str(), 40, 20);
    write_str(text_buffer, texts.temperature_and_wifi.as_str(), 60, 20);
}

/// The characters shown to prove that the screen displays its own characters and non-ASCII ones.
pub open spec fn character_test_text() -> Seq<char> {
    "\x00 \x01 \x02 \x03 \x04\x05\x06\x07ñäöüÆÇç"@
}

/// The screen when the user chose the same missing channel twice: by turns the compile time
/// and the SSID, or the local and gateway IP addresses; then the throttled state and time,
/// and a line of test characters.
pub open spec fn channel_not_found_twice_screen(screen: Seq<u8>, status: PlayerStatus, texts: ScreenTexts) -> Seq<u8> {
    let s2 = if texts.show_compile_time_and_ssid {
        written(written(screen, lcd_bytes(texts.compile_time@), 0, 20), lcd_bytes(status.network_data.ssid@), 20, 20)
    } else {
        written(
            written(screen, lcd_bytes("local"@ + status.network_data.local_ip_address@), 0, 20),
            lcd_bytes("G'way"@ + status.network_data.gateway_ip_address@),
            20,
            20,
        )
    };
    let s3 = written(s2, lcd_bytes(texts.throttled_status_and_time@), 40, 20);
    written(s3, lcd_encode(character_test_text()), 60, 20)
}

/// Outputs error message with alternatively (compile time & SSID) or (local IP address & gateway IP address),
/// throttled state & time & the non-ASCII character to prove they display OK.
/// Used when the user selects the same wrong channel twice consecutively
pub fn fill_text_buffer_channel_not_found_twice(text_buffer: &mut TextBuffer, status_of_rradio: &PlayerStatus, texts: &ScreenTexts)
    ensures
        final(text_buffer).buffer@ == channel_not_found_twice_screen(old(text_buffer).buffer@, *status_of_rradio, *texts),
{
    if texts.show_compile_time_and_ssid {
        write_str(text_buffer, texts.compile_time.as_str(), 0, 20);
        write_str(text_buffer, status_of_rradio.network_data.ssid.as_str(), 20, 20);
    } else {
        let mut l1 = String::from_str("local");
        l1.append(status_of_rradio.network_data.local_ip_address.as_str());
        write_str(text_buffer, l1.as_str(), 0, 20);
        let mut l2 = String::from_str("G'way");
        l2.append(status_of_rradio.network_data.gateway_ip_address.as_str());
        write_str(text_buffer, l2.as_str(), 20, 20);
    }
    write_str(text_buffer, texts.throttled_status_and_time.as_str(), 40, 20);
    let test_characters = encode_for_lcd("\x00 \x01 \x02 \x03 \x04\x05\x06\x07ñäöüÆÇç");
    text_buffer.write_text_to_buffer(test_characters.as_slice(), 60, 20);
}

/// Whether the screen for a channel missing twice shows the compile time and SSID (rather
/// than the IP addresses) at this many seconds since the Unix epoch: it alternates every four
/// seconds.
pub fn shows_compile_time_and_ssid(seconds_since_epoch: u64) -> (r: bool)
    ensures
        r == ((seconds_since_epoch / 4) % 2 == 0),
{
    let quarter = seconds_since_epoch / 4;
    assert(quarter & 1 == quarter % 2) by (bit_vector);
    (quarter & 1) == 0
}

/// The track, position and duration as shown for a CD or memory stick, squeezed to fit the
/// space left by the volume: "t: p of d", with fewer spaces, or without the duration, as the
/// numbers grow.
pub open spec fn track_position_text(track_index: nat, position_secs: nat, duration_secs: nat) -> Seq<char> {
    let digits = (if track_index < 10 { 1nat } else { 2nat }) + digit_count(position_secs)
        + digit_count(duration_secs);
    let t = decimal(track_index);
    let p = decimal(position_secs);
    let d = decimal(duration_secs);
    if digits <= 7 {
        t + ": "@ + p + " of "@ + d
    } else if digits == 8 {
        t + ":"@ + p + " of "@ + d
    } else if digits == 9 {
        t + ":"@ + p + "of "@ + d
    } else if digits == 10 {
        t + ": "@ + p + "of"@ + d
    } else {
        t + ": "@ + p
    }
}

/// The start of the first line when running normally: the kind of media for the first
/// moments after a channel change; then the track and position (CD or memory stick), the
/// ping time or the CPU temperature (streams), or the unknown source.
pub open spec fn start_line1_text(status: PlayerStatus, config: Config, texts: ScreenTexts) -> Seq<char> {
    let c = status.current();
    if c.position / 1_000_000 < config.time_initial_message_displayed_after_channel_change / 1_000_000 {
        match c.channel_data.source_type {
            SourceType::Cd => "Playing CD"@,
            SourceType::Usb => "USB "@ + decimal(status.channel_number as nat),
            _ => "Station "@ + decimal(status.channel_number as nat),
        }
    } else {
        match c.channel_data.source_type {
            SourceType::Cd | SourceType::Usb => match c.duration {
                Some(d) => track_position_text(
                    (c.index_to_current_track + 1) as nat,
                    (c.position / 1_000_000_000) as nat,
                    (d / 1_000_000_000) as nat,
                ),
                None => "source error"@,
            },
            SourceType::UrlList => if status.ping_data.number_of_pings_to_this_channel
                <= config.max_number_of_remote_pings || status.ping_data.number_of_pings_to_this_channel
                % 2 != 0 {
                texts.ping_time_short@
            } else {
                "CPU Temp "@ + signed_decimal(texts.cpu_temperature as int) + "C"@
            },
            SourceType::UnknownSource => "Unknown source"@,
        }
    }
}

/// The buffering percentage held within 0..=99.
pub open spec fn trimmed_buffer(buffering_percent: i32) -> int {
    if buffering_percent < 0 {
        0
    } else if buffering_percent > 99 {
        99
    } else {
        buffering_percent as int
    }
}

/// The screen when playing normally (or paused): the first line, the volume, line 2 and lines
/// 3 and 4; for a stream a buffer gauge on line 4 (or the percentage in the corner when the
/// text needs both lines), and otherwise the date and time when there is room for it.
pub open spec fn running_normally_screen(screen: Seq<u8>, status: PlayerStatus, config: Config, texts: ScreenTexts) -> Seq<u8> {
    let s1 = written(screen, lcd_bytes(start_line1_text(status, config, texts)), 0, 13);
    let s2 = written(s1, lcd_bytes(vol_text(status.current_volume, status.gstreamer_state)), 13, 7);
    let s3 = written(s2, bytes_from(status.line_2_data.text.bytes@, status.line_2_data.scroll_position as nat), 20, 20);
    let s4 = written(s3, bytes_from(status.line_34_data.text.bytes@, status.line_34_data.scroll_position as nat), 40, 40);
    let line34_len = status.line_34_data.text.bytes@.len();
    if status.current().channel_data.source_type == SourceType::UrlList {
        if line34_len <= 20 {
            let t = trimmed_buffer(status.buffering_percent);
            let s5 = written(s4, Seq::new(20, |i: int| 32u8), 60, 20).update(60 + t / 5, (t % 5) as u8);
            if line34_len == 0 {
                written(s5, lcd_bytes(texts.date_and_time@), 40, 20)
            } else {
                s5
            }
        } else {
            written(s4, lcd_bytes(pad_left(signed_decimal(status.buffering_percent as int), 3, ' ')), 77, 3)
        }
    } else if line34_len <= 20 {
        written(s4, lcd_bytes(texts.date_and_time@), 60, 20)
    } else {
        s4
    }
}

/// The start of the first line when running normally.
fn start_line1(status_of_rradio: &PlayerStatus, config: &Config, texts: &ScreenTexts) -> (r: String)
    requires
        status_of_rradio.wf(),
        status_of_rradio.current().index_to_current_track < usize::MAX,
    ensures
        r@ == start_line1_text(*status_of_rradio, *config, *texts),
{
    let c = &status_of_rradio.position_and_duration[status_of_rradio.channel_number];
    let channel = status_of_rradio.channel_number;
    if c.position / 1_000_000 < config.time_initial_message_displayed_after_channel_change / 1_000_000 {
        match c.channel_data.source_type {
            SourceType::Cd => String::from_str("Playing CD"),
            SourceType::Usb => {
                let mut r = String::from_str("USB ");
                append_u64(&mut r, channel as u64);
                r
            },
            _ => {
                let mut r = String::from_str("Station ");
                append_u64(&mut r, channel as u64);
                r
            },
        }
    } else {
        match c.channel_data.source_type {
            SourceType::Cd | SourceType::Usb => {
                match c.duration {
                    Some(d) => {
                        let track_index = (c.index_to_current_track + 1) as u64;
                        let position_secs = c.position / 1_000_000_000;
                        let duration_secs = d / 1_000_000_000;
                        let track_digits: u64 = if track_index < 10 { 1 } else { 2 };
                        let position_digits: u64 = if position_secs <= 9 {
                            1
                        } else if position_secs <= 99 {
                            2
                        } else if position_secs <= 999 {
                            3
                        } else {
                            4
                        };
                        let duration_digits: u64 = if duration_secs <= 9 {
                            1
                        } else if duration_secs <= 99 {
                            2
                        } else if duration_secs <= 999 {
                            3
                        } else {
                            4
                        };
                        let digits = track_digits + position_digits + duration_digits;
                        let mut r = String::new();
                        append_u64(&mut r, track_index);
                        if digits <= 7 {
                            r.append(": ");
                            append_u64(&mut r, position_secs);
                            r.append(" of ");
                            append_u64(&mut r, duration_secs);
                        } else if digits == 8 {
                            r.append(":");
                            append_u64(&mut r, position_secs);
                            r.append(" of ");
                            append_u64(&mut r, duration_secs);
                        } else if digits == 9 {
                            r.append(":");
                            append_u64(&mut r, position_secs);
                            r.append("of ");
                            append_u64(&mut r, duration_secs);
                        } else if digits == 10 {
                            r.append(": ");
                            append_u64(&mut r, position_secs);
                            r.append("of");
                            append_u64(&mut r, duration_secs);
                        } else {
                            r.append(": ");
                            append_u64(&mut r, position_secs);
                        }
                        assert(r@ =~= start_line1_text(*status_of_rradio, *config, *texts));
                        r
                    },
                    None => String::from_str("source error"),
                }
            },
            SourceType::UrlList => {
                let pings = status_of_rradio.ping_data.number_of_pings_to_this_channel;
                if pings <= config.max_number_of_remote_pings || pings % 2 != 0 {
                    texts.ping_time_short.clone()
                } else {
                    let mut r = String::from_str("CPU Temp ");
                    append_i64(&mut r, texts.cpu_temperature as i64);
                    r.append("C");
                    r
                }
            },
            SourceType::UnknownSource => String::from_str("Unknown source"),
        }
    }
}

/// Fills the text buffer when we are playing normally (or are paused)
pub fn fill_text_buffer_when_running_normally(
    text_buffer: &mut TextBuffer,
    status_of_rradio: &PlayerStatus,
    config: &Config,
    texts: &ScreenTexts,
)
    requires
        status_of_rradio.wf(),
        status_of_rradio.current().index_to_current_track < usize::MAX,
    ensures
        final(text_buffer).buffer@ == running_normally_screen(old(text_buffer).buffer@, *status_of_rradio, *config, *texts),
{
    let start = start_line1(status_of_rradio, config, texts);
    write_str(text_buffer, start.as_str(), 0, 13);
    let v = get_vol_string(status_of_rradio);
    write_str(text_buffer, v.as_str(), 13, 7);
    let line2 = status_of_rradio.line_2_data.bytes();
    text_buffer.write_text_to_lines(line2.as_slice(), LineNum::Line2, 1);
    let line34 = status_of_rradio.line_34_data.bytes();
    text_buffer.write_text_to_lines(line34.as_slice(), LineNum::Line3, 2);
    let line34_len = status_of_rradio.line_34_data.text.bytes.len();
    let source_type = status_of_rradio.position_and_duration[status_of_rradio.channel_number].channel_data.source_type;
    if source_type == SourceType::UrlList {
        if line34_len <= 20 {
            let b = status_of_rradio.buffering_percent;
            let trimmed: u8 = if b < 0 {
                0
            } else if b > 99 {
                99
            } else {
                b as u8
            };
            let column = (trimmed / 5) as usize;
            let character: u8 = trimmed % 5;
            let ghost before = text_buffer.buffer@;
            let blank_line: Vec<u8> = vec![32u8; 20];
            assert(blank_line@ =~= Seq::new(20, |i: int| 32u8));
            text_buffer.write_text_to_single_line(blank_line.as_slice(), LineNum::Line4);
            text_buffer.write_character_to_single_position(LineNum::Line4, column, character);
            if line34_len == 0 {
                write_str(text_buffer, texts.date_and_time.as_str(), 40, 20);
            }
        } else {
            let digits = i64_to_string(status_of_rradio.buffering_percent as i64);
            let mut percent = String::new();
            append_padded_left(&mut percent, digits.as_str(), 3, ' ');
            assert(percent@ =~= pad_left(signed_decimal(status_of_rradio.buffering_percent as int), 3, ' '));
            write_str(text_buffer, percent.as_str(), 77, 3);
        }
    } else if line34_len <= 20 {
        write_str(text_buffer, texts.date_and_time.as_str(), 60, 20);
    }
}

/// The whole screen for the player's status: the TOML error over all four lines if there is
/// one, otherwise the screen of the running status.
pub open spec fn rradio_screen(status: PlayerStatus, config: Config, texts: ScreenTexts) -> Seq<u8> {
    match status.toml_error {
        Some(e) => written(blank_screen(), lcd_bytes(e@), 0, 80),
        None => match status.running_status {
            RunningStatus::Startingup => starting_screen(blank_screen(), status, texts),
            RunningStatus::RunningNormally => running_normally_screen(blank_screen(), status, config, texts),
            RunningStatus::NoChannel => channel_not_found_screen(blank_screen(), status, texts),
            RunningStatus::NoChannelRepeated => channel_not_found_twice_screen(blank_screen(), status, texts),
            RunningStatus::ShuttingDown => written(
                written(
                    written(blank_screen(), lcd_bytes("Ending screen driver"@), 0, 20),
                    lcd_bytes("Computer not shut"@),
                    40,
                    20,
                ),
                lcd_bytes("down"@),
                60,
                20,
            ),
            RunningStatus::LongMessageOnAll4Lines => written(
                blank_screen(),
                bytes_from(status.all_4lines.text.bytes@, status.all_4lines.scroll_position as nat),
                0,
                status.all_4lines.num_lines * 20int,
            ),
        },
    }
}

/// The screen that `write_rradio_status_to_lcd` writes to the LCD for the player's status.
pub fn compose_rradio_screen(status_of_rradio: &PlayerStatus, config: &Config, texts: &ScreenTexts) -> (r: TextBuffer)
    requires
        status_of_rradio.wf(),
        status_of_rradio.current().index_to_current_track < usize::MAX,
        status_of_rradio.all_4lines.num_lines * 20 <= usize::MAX,
    ensures
        r.buffer@ == rradio_screen(*status_of_rradio, *config, *texts),
{
    let mut text_buffer = TextBuffer::new();
    if let Some(toml_error) = &status_of_rradio.toml_error {
        text_buffer.write_text_to_lines(toml_error.as_str().as_bytes(), LineNum::Line1, 4);
        return text_buffer;
    }
    match status_of_rradio.running_status {
        RunningStatus::Startingup => fill_text_buffer_when_starting(&mut text_buffer, status_of_rradio, texts),
        RunningStatus::RunningNormally => fill_text_buffer_when_running_normally(
            &mut text_buffer,
            status_of_rradio,
            config,
            texts,
        ),
        RunningStatus::NoChannel => fill_text_buffer_channel_not_found(&mut text_buffer, status_of_rradio, texts),
        RunningStatus::NoChannelRepeated => fill_text_buffer_channel_not_found_twice(
            &mut text_buffer,
            status_of_rradio,
            texts,
        ),
        RunningStatus::ShuttingDown => fill_text_buffer_when_shutting_down(&mut text_buffer),
        RunningStatus::LongMessageOnAll4Lines => long_message(&mut text_buffer, status_of_rradio),
    }
    text_buffer
}

/// Just after a channel change (before `time_initial_message_displayed_after_channel_change`
/// has passed), the first line names the channel: "Playing CD" for a CD, "USB" and the
/// channel number for a memory stick, and "Station" and the channel number otherwise.
pub proof fn lemma_first_line_names_the_new_channel(status: PlayerStatus, config: Config, texts: ScreenTexts)
    requires
        status.current().position / 1_000_000 < config.time_initial_message_displayed_after_channel_change / 1_000_000,
    ensures
        status.current().channel_data.source_type == SourceType::Cd ==> start_line1_text(status, config, texts)
            == "Playing CD"@,
        status.current().channel_data.source_type == SourceType::Usb ==> start_line1_text(status, config, texts)
            == "USB "@ + decimal(status.channel_number as nat),
        status.current().channel_data.source_type == SourceType::UrlList
            || status.current().channel_data.source_type == SourceType::UnknownSource
            ==> start_line1_text(status, config, texts) == "Station "@ + decimal(status.channel_number as nat),
{
}

/// When playing normally, the screen starts with the first line's text, when its encoding
/// fits before the volume (13 bytes).
pub proof fn lemma_screen_starts_with_first_line(screen: Seq<u8>, status: PlayerStatus, config: Config, texts: ScreenTexts)
    requires
        screen.len() == 80,
        lcd_bytes(start_line1_text(status, config, texts)).len() <= 13,
    ensures
        running_normally_screen(screen, status, config, texts).len() == 80,
        running_normally_screen(screen, status, config, texts).subrange(
            0,
            lcd_bytes(start_line1_text(status, config, texts)).len() as int,
        ) == lcd_bytes(start_line1_text(status, config, texts)),
{
    let first = lcd_bytes(start_line1_text(status, config, texts));
    let r = running_normally_screen(screen, status, config, texts);
    let s1 = written(screen, first, 0, 13);
    let s2 = written(s1, lcd_bytes(vol_text(status.current_volume, status.gstreamer_state)), 13, 7);
    let s3 = written(s2, bytes_from(status.line_2_data.text.bytes@, status.line_2_data.scroll_position as nat), 20, 20);
    let s4 = written(s3, bytes_from(status.line_34_data.text.bytes@, status.line_34_data.scroll_position as nat), 40, 40);
    assert forall|i: int| 0 <= i < first.len() implies #[trigger] r[i] == first[i] by {
        assert(s1[i] == first[i]);
        lemma_written_changes_only_its_range(s1, lcd_bytes(vol_text(status.current_volume, status.gstreamer_state)), 13, 7, i);
        lemma_written_changes_only_its_range(s2, bytes_from(status.line_2_data.text.bytes@, status.line_2_data.scroll_position as nat), 20, 20, i);
        lemma_written_changes_only_its_range(s3, bytes_from(status.line_34_data.text.bytes@, status.line_34_data.scroll_position as nat), 40, 40, i);
        assert(s4[i] == first[i]);
        let line34_len = status.line_34_data.text.bytes@.len();
        if status.current().channel_data.source_type == SourceType::UrlList {
            if line34_len <= 20 {
                let t = trimmed_buffer(status.buffering_percent);
                let g = written(s4, Seq::new(20, |k: int| 32u8), 60, 20);
                lemma_written_changes_only_its_range(s4, Seq::new(20, |k: int| 32u8), 60, 20, i);
                let s5 = g.update(60 + t / 5, (t % 5) as u8);
                assert(s5[i] == first[i]);
                if line34_len == 0 {
                    lemma_written_changes_only_its_range(s5, lcd_bytes(texts.date_and_time@), 40, 20, i);
                }
            } else {
                lemma_written_changes_only_its_range(
                    s4,
                    lcd_bytes(pad_left(signed_decimal(status.buffering_percent as int), 3, ' ')),
                    77,
                    3,
                    i,
                );
            }
        } else if line34_len <= 20 {
            lemma_written_changes_only_its_range(s4, lcd_bytes(texts.date_and_time@), 60, 20, i);
        }
    }
    assert(r.subrange(0, first.len() as int) =~= first);
}

/// Once the first moments after a channel change have passed, a CD or memory stick whose
/// track length is known shows on the first line the track counted from one, then a colon.
pub proof fn lemma_first_line_counts_tracks_from_one(status: PlayerStatus, config: Config, texts: ScreenTexts)
    requires
        status.current().position / 1_000_000 >= config.time_initial_message_displayed_after_channel_change / 1_000_000,
        status.current().channel_data.source_type == SourceType::Cd
            || status.current().channel_data.source_type == SourceType::Usb,
        status.current().duration is Some,
    ensures
        ({
            let shown = decimal((status.current().index_to_current_track + 1) as nat) + ":"@;
            start_line1_text(status, config, texts).subrange(0, shown.len() as int) == shown
        }),
{
    reveal_strlit(":");
    reveal_strlit(": ");
    let c = status.current();
    let t = decimal((c.index_to_current_track + 1) as nat);
    let line = start_line1_text(status, config, texts);
    assert(line.subrange(0, (t.len() + 1) as int) =~= t + ":"@) by {
        assert(line.len() >= t.len() + 1);
        assert forall|k: int| 0 <= k < t.len() + 1 implies line[k] == (t + ":"@)[k] by {
            if k < t.len() {
                assert(line[k] == t[k]);
            } else {
                assert(line[k] == ':');
            }
        }
    }
}

} // verus!
