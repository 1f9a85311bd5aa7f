use rradio::get_channel_details::{ChannelErrorEvents, ChannelFileDataDecoded, SourceType};
use rradio::gstreamer_interfaces::{TrackToPlay, adjust_volume, clamp_volume_exec, select_track, volume_to_db};
use rradio::lcd::{MuteState, RunningStatus, ThrottledAsStruct};
use rradio::play_channel::{
    PlayRequest, begin_channel_lookup, channel_details_already_known, record_channel_error, record_lookup_failure,
    record_play_failure, record_previous_track_played, seek_times, set_up_podcast_channel, start_playing_channel,
    store_new_channel_data, tidy_error_message, toml_error_message,
};
use rradio::player_status::{PODCAST_CHANNEL_NUMBER, PlayerStatus, START_UP_DING_CHANNEL_NUMBER};
use rradio::previous_or_nextrack::{PreviousTrackAction, advance_to_next_track, generate_line2, go_back_a_track};
use rradio::read_config::Config;

fn status_with_tracks(channel: usize, n: usize) -> (Config, PlayerStatus) {
    let config = Config::default();
    let mut status = PlayerStatus::new(&config);
    status.channel_number = channel;
    let mut data = ChannelFileDataDecoded::new();
    data.organisation = "My Album".to_string();
    data.source_type = SourceType::Usb;
    data.station_url = (0..n).map(|i| format!("file:///t{i}.mp3")).collect();
    status.position_and_duration[channel].channel_data = data;
    (config, status)
}

fn not_throttled() -> ThrottledAsStruct {
    ThrottledAsStruct { pi_is_throttled: false, result: "throttled=0x0".to_string() }
}

#[test]
fn the_volume_stays_in_range() {
    let (mut config, mut status) = status_with_tracks(3, 1);
    config.volume_offset = 30;
    status.current_volume = 100;
    adjust_volume(1, &config, &mut status);
    assert_eq!(status.current_volume, 120);
    adjust_volume(-1, &config, &mut status);
    assert_eq!(status.current_volume, 90);
    status.current_volume = 10;
    adjust_volume(-1, &config, &mut status);
    assert_eq!(status.current_volume, 0);
    adjust_volume(0, &config, &mut status);
    assert_eq!(status.current_volume, 0);
    assert_eq!(clamp_volume_exec(-5), 0);
    assert_eq!(volume_to_db(70), -30);
}

#[test]
fn volume_down_undoes_volume_up() {
    let (config, mut status) = status_with_tracks(3, 1);
    status.current_volume = 70;
    adjust_volume(1, &config, &mut status);
    adjust_volume(-1, &config, &mut status);
    assert_eq!(status.current_volume, 70);
}

#[test]
fn next_track_wraps_round() {
    let (_config, mut status) = status_with_tracks(3, 3);
    status.position_and_duration[3].index_to_current_track = 2;
    status.running_status = RunningStatus::LongMessageOnAll4Lines;
    advance_to_next_track(&mut status);
    assert_eq!(status.position_and_duration[3].index_to_current_track, 0);
    assert_eq!(status.running_status, RunningStatus::RunningNormally);
}

#[test]
fn previous_track_undoes_next_track() {
    let (config, mut status) = status_with_tracks(3, 4);
    for start in 0..4 {
        status.position_and_duration[3].index_to_current_track = start;
        status.position_and_duration[3].position = 0;
        advance_to_next_track(&mut status);
        assert_eq!(go_back_a_track(&mut status, &config), PreviousTrackAction::PlayPreviousTrack);
        assert_eq!(status.position_and_duration[3].index_to_current_track, start);
    }
}

#[test]
fn previous_track_seeks_to_the_start_after_a_while() {
    let (config, mut status) = status_with_tracks(3, 4);
    status.position_and_duration[3].index_to_current_track = 1;
    status.position_and_duration[3].position = 5_000_000_000;
    assert_eq!(go_back_a_track(&mut status, &config), PreviousTrackAction::SeekToStart);
    assert_eq!(status.position_and_duration[3].index_to_current_track, 1);
}

#[test]
fn line_2_shows_the_track_of_the_album() {
    let (_config, mut status) = status_with_tracks(3, 4);
    status.position_and_duration[3].index_to_current_track = 1;
    assert_eq!(generate_line2(&status, &not_throttled(), MuteState::NotMuted), "My Album (2 of 4) ");
    status.position_and_duration[3].channel_data.last_track_is_a_ding = true;
    let throttled = ThrottledAsStruct { pi_is_throttled: true, result: "throttled=0x5".to_string() };
    assert_eq!(generate_line2(&status, &throttled, MuteState::Muted), "My Album (2 of 3) throttled=0x5 muted");
}

#[test]
fn the_current_track_is_selected_to_play() {
    let (config, mut status) = status_with_tracks(3, 3);
    status.running_status = RunningStatus::RunningNormally;
    status.position_and_duration[3].index_to_current_track = 1;
    status.position_and_duration[3].position = 42_500_000_000;
    match select_track(&status, &config, true).unwrap() {
        TrackToPlay::Play { channel_number, url, pause_before_playing_ms, seek_to_seconds } => {
            assert_eq!(channel_number, 3);
            assert_eq!(url, "file:///t1.mp3");
            assert_eq!(pause_before_playing_ms, None);
            assert_eq!(seek_to_seconds, Some(42));
        }
        TrackToPlay::Nothing => panic!("a track is due"),
    }
}

#[test]
fn an_index_out_of_bounds_is_an_error() {
    let (config, mut status) = status_with_tracks(3, 2);
    status.running_status = RunningStatus::RunningNormally;
    status.position_and_duration[3].index_to_current_track = 5;
    assert_eq!(
        select_track(&status, &config, false).err(),
        Some("On channel 3 Index to tracks out of bounds; it is 5 and the list has 2 elements".to_string())
    );
}

#[test]
fn an_index_out_of_bounds_on_the_ding_channel_names_the_ding_track() {
    let (mut config, mut status) = status_with_tracks(3, 2);
    config.aural_notifications.filename_error = Some("/home/pi/error.wav".to_string());
    status.running_status = RunningStatus::NoChannel;
    status.position_and_duration[START_UP_DING_CHANNEL_NUMBER].channel_data.station_url = vec![];
    status.position_and_duration[START_UP_DING_CHANNEL_NUMBER].index_to_current_track = 4;
    let error = select_track(&status, &config, false).err().unwrap();
    assert_eq!(
        error,
        format!("On channel {START_UP_DING_CHANNEL_NUMBER} Index to tracks out of bounds; it is 0 and the list has 0 elements")
    );
}

#[test]
fn no_error_ding_is_played_when_none_is_configured() {
    let (config, mut status) = status_with_tracks(3, 2);
    status.running_status = RunningStatus::NoChannel;
    assert!(matches!(select_track(&status, &config, false), Ok(TrackToPlay::Nothing)));
}

#[test]
fn changing_channel_clears_the_lines() {
    let (_config, mut status) = status_with_tracks(3, 2);
    status.position_and_duration[3].position = 9;
    status.line_2_data.update_if_changed("old");
    let previous = start_playing_channel(&mut status, 7);
    assert_eq!(previous, 3);
    assert_eq!(status.channel_number, 7);
    assert_eq!(status.position_and_duration[3].position, 0);
    assert!(status.line_2_data.text.bytes.is_empty());
    assert_eq!(status.running_status, RunningStatus::RunningNormally);
}

#[test]
fn seeking_is_offered_for_cd_and_usb_only() {
    let config = Config::default();
    let (back, forward) = seek_times(SourceType::Cd, &config);
    assert_eq!(back.unwrap().short_seek_time, -10);
    assert_eq!(forward.unwrap().long_seek_time, 60);
    assert_eq!(seek_times(SourceType::UrlList, &config), (None, None));
}

#[test]
fn stored_channel_data_sets_the_address_to_ping() {
    let (_config, mut status) = status_with_tracks(3, 0);
    assert!(!channel_details_already_known(&status, 3));
    begin_channel_lookup(&mut status);
    let mut data = ChannelFileDataDecoded::new();
    data.station_url = vec!["http://radio.example.org:8000/stream".to_string()];
    data.source_type = SourceType::UrlList;
    data.data_is_initialised = true;
    status.toml_error = Some("old".to_string());
    assert!(!store_new_channel_data(&mut status, data));
    assert_eq!(status.position_and_duration[3].address_to_ping, "radio.example.org");
    assert_eq!(status.toml_error, None);
    status.channel_number = 4;
    assert!(!channel_details_already_known(&status, 3));
    status.channel_number = 3;
    assert!(channel_details_already_known(&status, 4));
    assert!(!channel_details_already_known(&status, 3));
}

#[test]
fn a_missing_channel_asked_for_twice_is_reported_as_such() {
    let mut config = Config::default();
    config.aural_notifications.filename_error = Some("/home/pi/error.wav".to_string());
    let mut status = PlayerStatus::new(&config);
    let first = start_playing_channel(&mut status, 55);
    assert!(record_channel_error(&mut status, &ChannelErrorEvents::CouldNotFindChannelFile, first, &config));
    assert_eq!(status.running_status, RunningStatus::NoChannel);
    assert_eq!(
        status.position_and_duration[START_UP_DING_CHANNEL_NUMBER].channel_data.station_url,
        vec!["file:///home/pi/error.wav"]
    );
    let second = start_playing_channel(&mut status, 55);
    assert_eq!(second, 55);
    record_channel_error(&mut status, &ChannelErrorEvents::CouldNotFindChannelFile, second, &config);
    assert_eq!(status.running_status, RunningStatus::NoChannelRepeated);
}

#[test]
fn a_lookup_failure_other_than_a_missing_file_is_shown() {
    let config = Config::default();
    let mut status = PlayerStatus::new(&config);
    assert!(!record_lookup_failure(&mut status, &ChannelErrorEvents::NoUSBDevice, 100, &config));
    assert_eq!(status.running_status, RunningStatus::LongMessageOnAll4Lines);
    assert_eq!(status.all_4lines.text.bytes, b"No USB device found".to_vec());
    assert!(!record_lookup_failure(&mut status, &ChannelErrorEvents::CouldNotFindChannelFile, 100, &config));
    assert_eq!(status.running_status, RunningStatus::NoChannel);
}

#[test]
fn a_channel_file_that_does_not_parse_gives_a_toml_error() {
    let config = Config::default();
    let mut status = PlayerStatus::new(&config);
    let error = ChannelErrorEvents::CouldNotParseChannelFile {
        channel_number: 12,
        error_message: "TOML parse error at line 1\n  |\n1 | x\n  | ^ expected".to_string(),
    };
    assert!(!record_channel_error(&mut status, &error, 3, &config));
    assert_eq!(status.toml_error, Some("Could not parse channel 12. TOML parse error at line 1 1 x expected".to_string()));
}

#[test]
fn toml_errors_are_tidied_for_the_screen() {
    assert_eq!(tidy_error_message("a\n|b^c"), "a b c");
    assert_eq!(tidy_error_message("a        b"), "a b");
    assert_eq!(toml_error_message(7, "x"), "Could not parse channel 7. x");
}

#[test]
fn a_failed_play_is_shown_over_four_lines() {
    let (_config, mut status) = status_with_tracks(3, 1);
    record_play_failure(&mut status, PlayRequest::Channel, "boom");
    assert_eq!(status.running_status, RunningStatus::LongMessageOnAll4Lines);
    assert_eq!(status.all_4lines.text.bytes, b"When playing a track on channel 3 got boom".to_vec());
    record_play_failure(&mut status, PlayRequest::NextTrack, "x");
    assert_eq!(status.all_4lines.text.bytes, b"When wanting to play the next track playing a track got x".to_vec());
}

#[test]
fn the_previous_track_shows_the_organisation() {
    let (_config, mut status) = status_with_tracks(3, 1);
    record_previous_track_played(&mut status);
    assert_eq!(status.line_2_data.text.bytes, b"My Album".to_vec());
}

#[test]
fn a_podcast_url_plays_on_the_podcast_channel() {
    let config = Config::default();
    let mut status = PlayerStatus::new(&config);
    set_up_podcast_channel(&mut status, "https://podcasts.example.com/ep1.mp3".to_string());
    assert_eq!(status.channel_number, PODCAST_CHANNEL_NUMBER);
    let c = &status.position_and_duration[PODCAST_CHANNEL_NUMBER];
    assert_eq!(c.address_to_ping, "podcasts.example.com");
    assert_eq!(c.channel_data.station_url, vec!["https://podcasts.example.com/ep1.mp3"]);
    assert_eq!(c.channel_data.source_type, SourceType::UrlList);
}
