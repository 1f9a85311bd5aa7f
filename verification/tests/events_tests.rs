use rradio::events::{
    ContentKind, UserRequest, advanced_position, classify_content_type, classify_user_text, correct_organisation,
    move_toml_error_to_line1, plays_next_at_end_of_stream, record_artist_tag, record_organisation_tag,
    record_position, record_title_tag, remove_selected_podcast, root_folder_of, set_up_startup_ding,
    show_long_message, toggled_state, volume_line_text,
};
use rradio::get_channel_details::SourceType;
use rradio::lcd::RunningStatus;
use rradio::player_status::{GstState, PODCAST_CHANNEL_NUMBER, PlayerStatus, START_UP_DING_CHANNEL_NUMBER};
use rradio::podcast::PodcastDataFromToml;
use rradio::read_config::Config;

fn status() -> PlayerStatus {
    PlayerStatus::new(&Config::default())
}

#[test]
fn misspelt_station_names_are_corrected() {
    assert_eq!(correct_organisation("LaPremiere"), "La Première");
    assert_eq!(correct_organisation("Nostalgie Chansons fran??aises"), "Nostalgie Chansons françaises");
    assert_eq!(correct_organisation("BBC"), "BBC");
}

#[test]
fn a_new_station_name_goes_to_line_2() {
    let mut s = status();
    s.channel_number = 3;
    record_organisation_tag(&mut s, "LaPremiere");
    assert_eq!(s.position_and_duration[3].channel_data.organisation, "La Première");
    assert_eq!(s.line_2_data.text.bytes, b"La Premi\x06re".to_vec());
}

#[test]
fn a_title_goes_to_lines_3_and_4() {
    let mut s = status();
    record_title_tag(&mut s, "News");
    assert_eq!(s.line_34_data.text.bytes, b"News".to_vec());
}

#[test]
fn a_new_artist_asks_for_line_2_again() {
    let mut s = status();
    s.channel_number = 3;
    assert!(record_artist_tag(&mut s, "Bach"));
    assert!(!record_artist_tag(&mut s, "Bach"));
    assert!(!record_artist_tag(&mut s, ""));
    s.channel_number = PODCAST_CHANNEL_NUMBER;
    assert!(record_artist_tag(&mut s, "x"));
}

#[test]
fn a_seek_never_passes_the_end() {
    assert_eq!(advanced_position(10_000_000_000, Some(20_000_000_000), 5), Some(15_000_000_000));
    assert_eq!(advanced_position(10_000_000_000, Some(12_000_000_000), 60), Some(12_000_000_000));
    assert_eq!(advanced_position(3_000_000_000, Some(12_000_000_000), -10), Some(0));
    assert_eq!(advanced_position(3_000_000_000, None, 10), None);
}

#[test]
fn the_chosen_podcast_is_removed_only_when_valid() {
    let mut s = status();
    s.podcast_data_from_toml.podcast_data_for_all_stations = vec![
        PodcastDataFromToml { title: "a".to_string(), url: "u1".to_string() },
        PodcastDataFromToml { title: "b".to_string(), url: "u2".to_string() },
    ];
    s.podcast_index = 0;
    assert!(!remove_selected_podcast(&mut s));
    s.podcast_index = 1;
    assert!(remove_selected_podcast(&mut s));
    assert_eq!(s.podcast_data_from_toml.podcast_data_for_all_stations.len(), 1);
    assert_eq!(s.podcast_data_from_toml.podcast_data_for_all_stations[0].title, "a");
    assert!(!remove_selected_podcast(&mut s));
}

#[test]
fn text_from_the_web_page() {
    assert!(matches!(classify_user_text(" https://x.org/a.mp3 "), UserRequest::Fetch(u) if u == "https://x.org/a.mp3"));
    assert!(matches!(classify_user_text("42"), UserRequest::PlayChannel(42)));
    assert!(matches!(classify_user_text("+4"), UserRequest::PlayChannel(4)));
    assert!(matches!(classify_user_text("4"), UserRequest::Ignore));
    assert!(matches!(classify_user_text("é"), UserRequest::Ignore));
    assert!(matches!(classify_user_text("ab"), UserRequest::Ignore));
}

#[test]
fn content_types_of_fetched_urls() {
    assert_eq!(classify_content_type("audio/mpeg"), ContentKind::Audio);
    assert_eq!(classify_content_type("text/xml"), ContentKind::PossibleFeed);
    assert_eq!(classify_content_type("application/xml; charset=utf-8"), ContentKind::Unknown);
}

#[test]
fn play_pause_toggles() {
    assert_eq!(toggled_state(GstState::Playing), GstState::Paused);
    assert_eq!(toggled_state(GstState::Paused), GstState::Playing);
    assert_eq!(toggled_state(GstState::Null), GstState::Playing);
}

#[test]
fn positions_are_kept_for_typed_channels() {
    let mut s = status();
    s.channel_number = 5;
    s.position_and_duration[5].channel_data.source_type = SourceType::Cd;
    assert!(record_position(&mut s, Some(7), Some(100)));
    assert_eq!(s.position_and_duration[5].position, 7);
    assert_eq!(s.position_and_duration[5].duration, Some(100));
    s.channel_number = START_UP_DING_CHANNEL_NUMBER;
    assert!(!record_position(&mut s, Some(9), None));
    assert_eq!(s.position_and_duration[START_UP_DING_CHANNEL_NUMBER].position, 0);
}

#[test]
fn the_first_line_shows_address_and_volume() {
    let mut s = status();
    s.network_data.local_ip_address = "192.168.1.5".to_string();
    s.gstreamer_state = GstState::Playing;
    assert_eq!(volume_line_text(&s), "192.168.1.5 Vol 70");
}

#[test]
fn a_toml_error_moves_to_line_1() {
    let mut s = status();
    s.toml_error = Some("bad".to_string());
    move_toml_error_to_line1(&mut s);
    assert_eq!(s.toml_error, None);
    assert_eq!(s.line_1_data.text.bytes, b"bad".to_vec());
}

#[test]
fn the_start_up_ding_is_set_up() {
    let mut s = status();
    set_up_startup_ding(&mut s, "/home/pi/start.wav");
    assert_eq!(s.channel_number, START_UP_DING_CHANNEL_NUMBER);
    assert_eq!(s.position_and_duration[START_UP_DING_CHANNEL_NUMBER].channel_data.station_url, vec!["file:///home/pi/start.wav"]);
    assert!(!plays_next_at_end_of_stream(&s));
}

#[test]
fn a_long_message_is_shown_from_its_start() {
    let mut s = status();
    show_long_message(&mut s, "Failed to get a playbin");
    assert_eq!(s.running_status, RunningStatus::LongMessageOnAll4Lines);
    assert_eq!(s.all_4lines.num_lines, 4);
}

#[test]
fn the_root_folder_ends_with_a_slash() {
    assert_eq!(root_folder_of("/home/pi/rradio"), Some("/home/pi/".to_string()));
    assert_eq!(root_folder_of("rradio"), None);
}
