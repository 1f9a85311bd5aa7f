use rradio::reports::{ChannelFileEntry, channel_is_reported, channel_list_report, display_list_of_valid_channel_formats, is_channel_file_name};
use rradio::player_status::PlayerStatus;
use rradio::read_config::Config;

#[test]
fn channel_files_are_recognised() {
    assert!(is_channel_file_name("01 Radio.toml"));
    assert!(is_channel_file_name("42 Jazz.TOML"));
    assert!(is_channel_file_name("-1 odd.toml"));
    assert!(!is_channel_file_name("Radio.toml"));
    assert!(!is_channel_file_name("01 Radio.txt"));
}

#[test]
fn the_channel_list_is_sorted_after_the_errors() {
    let entries = vec![
        ChannelFileEntry { file_name: "12 b.toml".to_string(), outcome: Ok("Radio B".to_string()) },
        ChannelFileEntry { file_name: "03 bad.toml".to_string(), outcome: Err("parse error".to_string()) },
        ChannelFileEntry { file_name: "01 a.toml".to_string(), outcome: Ok("Radio A".to_string()) },
    ];
    assert_eq!(
        channel_list_report(&entries),
        "\nList of valid channels\n03 bad.toml \tparse error\n01 a.toml \tRadio A\n12 b.toml \tRadio B\n"
    );
}

#[test]
fn the_status_report_covers_the_current_channel() {
    let config = Config::default();
    let mut status = PlayerStatus::new(&config);
    status.channel_number = 4;
    assert!(channel_is_reported(&status, 4));
    assert!(!channel_is_reported(&status, 5));
    status.position_and_duration[5].channel_data.station_url = vec!["x".to_string()];
    assert!(channel_is_reported(&status, 5));
}

#[test]
fn the_example_formats_start_with_a_cd() {
    assert!(display_list_of_valid_channel_formats().starts_with("Example file format for a CD drive\n[media_details]\n"));
    assert!(display_list_of_valid_channel_formats().contains("\n[media_details.authentication_data]     #omit"));
}
