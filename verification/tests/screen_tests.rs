use rradio::get_channel_details::SourceType;
use rradio::lcd::{RunningStatus, ScrollData};
use rradio::lcd_screen::{
    ScreenTexts, compose_rradio_screen, get_temperature_and_wifi_strength_text, get_throttled_status_and_time,
    get_vol_string,
};
use rradio::lcd::ThrottledAsStruct;
use rradio::player_status::{GstState, PlayerStatus};
use rradio::read_config::Config;

fn texts() -> ScreenTexts {
    ScreenTexts {
        date_and_time: "01 Jan 25 12:00:00".to_string(),
        temperature_and_wifi: "CPU Temp 48C WiFi-50".to_string(),
        ping_time_long: "Local ping 1.2ms".to_string(),
        ping_time_short: "LocPing1.2ms".to_string(),
        cpu_temperature: 48,
        throttled_status_and_time: "NotThrottled 12:00".to_string(),
        compile_time: "2025-01-01".to_string(),
        show_compile_time_and_ssid: false,
    }
}

fn line(buffer: &[u8; 80], n: usize) -> String {
    String::from_utf8_lossy(&buffer[n * 20..n * 20 + 20]).to_string()
}

fn pad(s: &str) -> String {
    format!("{s:<20}")
}

#[test]
fn the_volume_is_shown_right_aligned() {
    let config = Config::default();
    let mut status = PlayerStatus::new(&config);
    status.gstreamer_state = GstState::Playing;
    status.current_volume = 70;
    assert_eq!(get_vol_string(&status), "Vol 70");
    status.current_volume = 100;
    assert_eq!(get_vol_string(&status), "Vol 100");
    status.current_volume = 5;
    assert_eq!(get_vol_string(&status), "Vol 5");
    status.gstreamer_state = GstState::Paused;
    assert_eq!(get_vol_string(&status), "Paused");
}

#[test]
fn small_texts_of_the_screen() {
    let not_throttled = ThrottledAsStruct { pi_is_throttled: false, result: "throttled=0x0".to_string() };
    assert_eq!(get_throttled_status_and_time(&not_throttled, "12:00"), "NotThrottled12:00");
    let throttled = ThrottledAsStruct { pi_is_throttled: true, result: "throttled=0x5".to_string() };
    assert_eq!(get_throttled_status_and_time(&throttled, "12:00"), "throttled=0x512:00 ");
    assert_eq!(get_temperature_and_wifi_strength_text(48, "-50"), "CPU Temp 48C WiFi-50");
}

#[test]
fn a_toml_error_fills_the_whole_screen() {
    let config = Config::default();
    let mut status = PlayerStatus::new(&config);
    status.toml_error = Some("bad config".to_string());
    let screen = compose_rradio_screen(&status, &config, &texts());
    assert_eq!(line(&screen.buffer, 0), pad("bad config"));
    assert_eq!(line(&screen.buffer, 3), pad(""));
}

#[test]
fn the_start_up_screen_shows_date_and_temperature() {
    let config = Config::default();
    let status = PlayerStatus::new(&config);
    let screen = compose_rradio_screen(&status, &config, &texts());
    assert_eq!(line(&screen.buffer, 0), pad(""));
    assert_eq!(line(&screen.buffer, 1), pad(""));
    assert_eq!(line(&screen.buffer, 2), pad("01 Jan 25 12:00:00"));
    assert_eq!(line(&screen.buffer, 3), pad("CPU Temp 48C WiFi-50"));
}

#[test]
fn the_shutting_down_screen() {
    let config = Config::default();
    let mut status = PlayerStatus::new(&config);
    status.running_status = RunningStatus::ShuttingDown;
    let screen = compose_rradio_screen(&status, &config, &texts());
    assert_eq!(line(&screen.buffer, 0), pad("Ending screen driver"));
    assert_eq!(line(&screen.buffer, 2), pad("Computer not shut"));
    assert_eq!(line(&screen.buffer, 3), pad("down"));
}

#[test]
fn the_missing_channel_screen() {
    let config = Config::default();
    let mut status = PlayerStatus::new(&config);
    status.running_status = RunningStatus::NoChannel;
    status.channel_number = 42;
    status.gstreamer_state = GstState::Playing;
    status.network_data.local_ip_address = "192.168.1.2".to_string();
    let screen = compose_rradio_screen(&status, &config, &texts());
    assert_eq!(line(&screen.buffer, 0), "No station 42Vol 70 ");
    assert_eq!(line(&screen.buffer, 1), pad("192.168.1.2"));
}

#[test]
fn a_long_message_covers_its_lines() {
    let config = Config::default();
    let mut status = PlayerStatus::new(&config);
    status.running_status = RunningStatus::LongMessageOnAll4Lines;
    let message = "When playing a track on channel 3 got an error";
    status.all_4lines = ScrollData::new(message, 4);
    let screen = compose_rradio_screen(&status, &config, &texts());
    assert_eq!(line(&screen.buffer, 0), &message[0..20]);
    assert_eq!(line(&screen.buffer, 1), &message[20..40]);
    assert_eq!(line(&screen.buffer, 2), pad(&message[40..]));
    assert_eq!(line(&screen.buffer, 3), pad(""));
}

#[test]
fn a_stream_shows_its_buffer_gauge() {
    let config = Config::default();
    let mut status = PlayerStatus::new(&config);
    status.running_status = RunningStatus::RunningNormally;
    status.channel_number = 4;
    status.gstreamer_state = GstState::Playing;
    status.position_and_duration[4].channel_data.source_type = SourceType::UrlList;
    status.position_and_duration[4].position = 10_000_000_000;
    status.line_2_data = ScrollData::new("Radio 4", 1);
    status.line_34_data = ScrollData::new("News", 2);
    status.buffering_percent = 57;
    let mut t = texts();
    t.ping_time_short = "RemPing 20ms".to_string();
    let screen = compose_rradio_screen(&status, &config, &t);
    assert_eq!(line(&screen.buffer, 0), pad("RemPing 20ms Vol 70"));
    assert_eq!(line(&screen.buffer, 1), pad("Radio 4"));
    assert_eq!(line(&screen.buffer, 2), pad("News"));
    let mut gauge = [b' '; 20];
    gauge[11] = 2;
    assert_eq!(&screen.buffer[60..80], &gauge);
}

#[test]
fn the_first_line_names_the_station_just_after_a_change() {
    let config = Config::default();
    let mut status = PlayerStatus::new(&config);
    status.running_status = RunningStatus::RunningNormally;
    status.channel_number = 4;
    status.gstreamer_state = GstState::Playing;
    status.position_and_duration[4].channel_data.source_type = SourceType::Cd;
    status.position_and_duration[4].position = 1_000_000_000;
    let screen = compose_rradio_screen(&status, &config, &texts());
    assert_eq!(line(&screen.buffer, 0), pad("Playing CD   Vol 70"));
    assert_eq!(line(&screen.buffer, 3), pad("01 Jan 25 12:00:00"));
}

#[test]
fn the_first_line_shows_track_and_position_for_a_cd() {
    let config = Config::default();
    let mut status = PlayerStatus::new(&config);
    status.running_status = RunningStatus::RunningNormally;
    status.channel_number = 4;
    status.gstreamer_state = GstState::Playing;
    status.position_and_duration[4].channel_data.source_type = SourceType::Cd;
    status.position_and_duration[4].index_to_current_track = 2;
    status.position_and_duration[4].position = 65_000_000_000;
    status.position_and_duration[4].duration = Some(240_000_000_000);
    let screen = compose_rradio_screen(&status, &config, &texts());
    assert_eq!(line(&screen.buffer, 0), pad("3: 65 of 240 Vol 70"));
}
