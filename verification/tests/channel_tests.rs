use rradio::get_channel_details::{
    ChannelErrorEvents, ChannelFileDataDecoded, ChannelFileKind, FolderEntry, SourceType, album_channel_data,
    audio_file_paths, cd_channel_data, cd_status_check, channel_file_prefix, choose_album, eject_outcome,
    get_ip_address, has_supported_file, interpret_channel_file, is_channel_file_for, is_supported_file_type,
    set_up_playlist_random_albums,
};
use rradio::read_config::MediaDetails;

fn media(device: &str) -> MediaDetails {
    MediaDetails {
        device: device.to_string(),
        disk_identifier: None,
        authentication_data: None,
        version: None,
        mount_folder: "/home/pi/mount".to_string(),
        is_mounted: false,
    }
}

#[test]
fn the_host_of_a_url_is_pinged() {
    assert_eq!(get_ip_address("http://stream.example.com:8000/live.mp3".to_string()), "stream.example.com");
    assert_eq!(get_ip_address("https://a.b/c".to_string()), "a.b");
}

#[test]
fn a_plain_ip_address_is_pinged_unchanged() {
    assert_eq!(get_ip_address("192.168.1.7".to_string()), "192.168.1.7");
}

#[test]
fn supported_files_are_known_by_their_extension() {
    assert!(is_supported_file_type("song.mp3"));
    assert!(is_supported_file_type("song.FLAC"));
    assert!(is_supported_file_type("a.b.ogg"));
    assert!(!is_supported_file_type("cover.jpg"));
    assert!(!is_supported_file_type("mp3"));
    assert!(!is_supported_file_type(".mp3"));
}

#[test]
fn channel_files_start_with_two_digits() {
    assert_eq!(channel_file_prefix(7), "07");
    assert_eq!(channel_file_prefix(42), "42");
    assert!(is_channel_file_for("07 Radio Four.toml", 7));
    assert!(!is_channel_file_for("70 Jazz.toml", 7));
}

#[test]
fn a_stream_channel_file_is_a_url_list() {
    let mut decoded = ChannelFileDataDecoded::new();
    decoded.organisation = "France Inter".to_string();
    decoded.station_url = vec!["http://direct.franceinter.fr/live".to_string()];
    match interpret_channel_file(decoded, &Some("/home/pi/ding.mp3".to_string())) {
        ChannelFileKind::Ready(d) => {
            assert_eq!(d.source_type, SourceType::UrlList);
            assert!(d.last_track_is_a_ding);
            assert_eq!(
                d.station_url,
                vec!["http://direct.franceinter.fr/live".to_string(), "file:///home/pi/ding.mp3".to_string()]
            );
            assert!(d.data_is_initialised);
            assert_eq!(d.organisation, "France Inter");
        }
        ChannelFileKind::Cd(_) => panic!("not a CD"),
    }
}

#[test]
fn a_stream_channel_without_a_ding_keeps_its_urls() {
    let mut decoded = ChannelFileDataDecoded::new();
    decoded.station_url = vec!["http://a".to_string()];
    match interpret_channel_file(decoded, &None) {
        ChannelFileKind::Ready(d) => {
            assert!(!d.last_track_is_a_ding);
            assert_eq!(d.station_url, vec!["http://a".to_string()]);
        }
        ChannelFileKind::Cd(_) => panic!("not a CD"),
    }
}

#[test]
fn media_channel_files_are_usb_or_cd() {
    let mut usb = ChannelFileDataDecoded::new();
    usb.media_details = Some(media("/dev/sda1"));
    assert!(matches!(interpret_channel_file(usb, &None), ChannelFileKind::Ready(d) if d.source_type == SourceType::Usb));
    let mut samba = ChannelFileDataDecoded::new();
    samba.media_details = Some(media("//192.168.0.2/share"));
    assert!(matches!(interpret_channel_file(samba, &None), ChannelFileKind::Ready(d) if d.source_type == SourceType::Usb));
    let mut cd = ChannelFileDataDecoded::new();
    cd.media_details = Some(media("/dev/sr0"));
    assert!(matches!(interpret_channel_file(cd, &None), ChannelFileKind::Cd(m) if m.device == "/dev/sr0"));
}

#[test]
fn a_cd_has_one_url_per_track_and_a_ding() {
    let d = cd_channel_data(&media("/dev/sr0"), 1, 3, &Some("/home/pi/ding.mp3".to_string()));
    assert_eq!(d.station_url, vec!["cdda://1", "cdda://2", "cdda://3", "file:///home/pi/ding.mp3"]);
    assert!(d.last_track_is_a_ding);
    assert_eq!(d.organisation, "CD");
    assert_eq!(d.source_type, SourceType::Cd);
    assert!(d.media_details.unwrap().is_mounted);
}

#[test]
fn a_cd_without_tracks_gets_no_ding() {
    let d = cd_channel_data(&media("/dev/sr0"), 2, 1, &Some("/ding.mp3".to_string()));
    assert!(d.station_url.is_empty());
    assert!(!d.last_track_is_a_ding);
}

#[test]
fn cd_drive_answers_are_checked_in_turn() {
    assert!(cd_status_check(4, 100, 0).is_ok());
    assert!(cd_status_check(4, 105, 0).is_ok());
    assert!(matches!(cd_status_check(2, 100, 0), Err(ChannelErrorEvents::FailedtoGetCDdriveOrDiskStatus(2))));
    assert!(matches!(cd_status_check(4, 101, 0), Err(ChannelErrorEvents::FailedtoGetCDdriveOrDiskStatus(101))));
    assert!(matches!(cd_status_check(4, 100, -1), Err(ChannelErrorEvents::CouldNotGetNumberOfCDTracks(-1))));
}

#[test]
fn an_album_is_named_after_its_path_below_the_mount_folder() {
    let mut data = ChannelFileDataDecoded::new();
    data.source_type = SourceType::Usb;
    let tracks = vec!["/mnt/usb/Artist/Album/01.mp3".to_string(), "/mnt/usb/Artist/Album/02.mp3".to_string()];
    let d = album_channel_data("/mnt/usb/Artist/Album", "/mnt/usb", &tracks, &None, &data);
    assert_eq!(d.organisation, "Artist/Album");
    assert_eq!(d.station_url, vec!["file:///mnt/usb/Artist/Album/01.mp3", "file:///mnt/usb/Artist/Album/02.mp3"]);
    assert!(!d.last_track_is_a_ding);
    assert_eq!(d.source_type, SourceType::UrlList);
}

#[test]
fn an_album_name_skips_as_many_characters_as_the_mount_folder_has_bytes() {
    let data = ChannelFileDataDecoded::new();
    let d = album_channel_data("/mnt/é/Zoë", "/mnt/é", &vec![], &Some("/d.mp3".to_string()), &data);
    assert_eq!(d.organisation, "oë");
    assert_eq!(d.station_url, vec!["file:///d.mp3"]);
    assert!(d.last_track_is_a_ding);
}

#[test]
fn an_album_is_chosen_among_those_found() {
    assert!(matches!(choose_album(&vec![]), Err(ChannelErrorEvents::NoFilesInArray)));
    let albums = vec!["a".to_string(), "b".to_string(), "c".to_string()];
    for _ in 0..50 {
        let i = choose_album(&albums).unwrap();
        assert!(i < albums.len());
    }
}

#[test]
fn random_tracks_are_the_tracks_found_then_the_ding() {
    let data = ChannelFileDataDecoded::new();
    let tracks: Vec<String> = (0..20).map(|i| format!("/m/t{i}.mp3")).collect();
    let d = set_up_playlist_random_albums(&tracks, &Some("/ding.wav".to_string()), &data);
    assert_eq!(d.source_type, SourceType::UrlList);
    assert_eq!(d.station_url.len(), 21);
    assert_eq!(d.station_url[20], "file:///ding.wav");
    let mut got: Vec<String> = d.station_url[..20].to_vec();
    got.sort();
    let mut expected: Vec<String> = tracks.iter().map(|t| format!("file://{t}")).collect();
    expected.sort();
    assert_eq!(got, expected);
    assert!(d.last_track_is_a_ding);
}

#[test]
fn albums_and_tracks_are_found_by_file_name() {
    assert!(has_supported_file(&vec!["cover.jpg".to_string(), "01.mp3".to_string()]));
    assert!(!has_supported_file(&vec!["cover.jpg".to_string()]));
    let entries = vec![
        FolderEntry { path: "/a/01.mp3".to_string(), file_name: "01.mp3".to_string(), is_file: true },
        FolderEntry { path: "/a/x.mp3".to_string(), file_name: "x.mp3".to_string(), is_file: false },
        FolderEntry { path: "/a/c.jpg".to_string(), file_name: "c.jpg".to_string(), is_file: true },
        FolderEntry { path: "/a/02.wav".to_string(), file_name: "02.wav".to_string(), is_file: true },
    ];
    assert_eq!(audio_file_paths(&entries), vec!["/a/01.mp3", "/a/02.wav"]);
}

#[test]
fn eject_reports_the_first_failure() {
    assert_eq!(eject_outcome(0, None, None), Err("No drives present".to_string()));
    assert_eq!(
        eject_outcome(1, Some("busy".to_string()), None),
        Err("Got the following error when trying to open the CD drive \"busy\"".to_string())
    );
    assert_eq!(
        eject_outcome(1, None, Some("Os { code: 5 }".to_string())),
        Err("got the following error when ejecting the CDOs { code: 5 }".to_string())
    );
    assert_eq!(eject_outcome(1, None, None), Ok(()));
}

#[test]
fn errors_are_shown_on_the_screen() {
    assert_eq!(ChannelErrorEvents::NoUSBDevice.to_lcd_screen(), "No USB device found");
    assert_eq!(ChannelErrorEvents::FailedToOpenCdDrive(Some(2)).to_lcd_screen(), "No CD drive");
    assert_eq!(ChannelErrorEvents::FailedToOpenCdDrive(Some(9)).to_lcd_screen(), "CD Open error 9");
    assert_eq!(ChannelErrorEvents::FailedToOpenCdDrive(None).to_lcd_screen(), "CD open error None");
    assert_eq!(ChannelErrorEvents::FailedtoGetCDdriveOrDiskStatus(102).to_lcd_screen(), "Data CD no audio");
    assert_eq!(ChannelErrorEvents::FailedtoGetCDdriveOrDiskStatus(-1).to_lcd_screen(), "bad CD error from OS");
    assert_eq!(ChannelErrorEvents::FailedtoGetCDdriveOrDiskStatus(7).to_lcd_screen(), "unexpected CD error 7");
    assert_eq!(
        ChannelErrorEvents::CouldNotParseChannelFile { channel_number: 5, error_message: "bad".to_string() }
            .to_lcd_screen(),
        "5, bad"
    );
    assert_eq!(
        ChannelErrorEvents::CouldNotFindSambaShareWithFolder(None).to_lcd_screen(),
        "Software bug in error message"
    );
    assert_eq!(
        ChannelErrorEvents::MediaNotMountabletype(SourceType::Cd).to_lcd_screen(),
        format!("Media of source type {} cannot be mounted", SourceType::Cd.to_display_string())
    );
}
