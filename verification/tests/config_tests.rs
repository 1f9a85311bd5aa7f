use rradio::read_config::{
    Config, StartTime, check_config, config_file_path_from_args, config_parse_error, long_advance_time_default,
    short_advance_time_default, start_channel_valid,
};

fn args(list: &[&str]) -> Vec<String> {
    list.iter().map(|s| s.to_string()).collect()
}

#[test]
fn the_default_configuration() {
    let c = Config::default();
    assert_eq!(c.stations_directory, "/home/pi/playlists");
    assert_eq!(c.input_timeout, 3000);
    assert_eq!(c.volume_offset, 5);
    assert_eq!(c.initial_volume, 70);
    assert_eq!(c.max_number_of_remote_pings, 15);
    assert_eq!(short_advance_time_default(), 10);
    assert_eq!(long_advance_time_default(), 60);
}

#[test]
fn the_config_file_comes_from_the_arguments() {
    let r = config_file_path_from_args("config2.toml", &args(&[]));
    assert_eq!(r.config_file_path, Ok("config2.toml".to_string()));
    let r = config_file_path_from_args("config2.toml", &args(&["-c", "/etc/r.toml"]));
    assert_eq!(r.config_file_path, Ok("/etc/r.toml".to_string()));
    let r = config_file_path_from_args("config2.toml", &args(&["-V", "--config", "x.toml", "-v"]));
    assert_eq!(r.config_file_path, Ok("x.toml".to_string()));
    assert_eq!(r.version_requests, 2);
}

#[test]
fn wrong_arguments_are_errors() {
    let r = config_file_path_from_args("config2.toml", &args(&["-c"]));
    assert_eq!(
        r.config_file_path,
        Err("the format is -c followed by the file name, but could not find the file name.".to_string())
    );
    let r = config_file_path_from_args("config2.toml", &args(&["--bad"]));
    assert_eq!(
        r.config_file_path,
        Err("unhandled argument  \"--bad\". Valid arguments are -c then the config file name or -V".to_string())
    );
}

#[test]
fn a_config_parse_error_names_the_file() {
    assert_eq!(
        config_parse_error("/home/pi/config2.toml", "expected `=`\n  |\n"),
        "Using file \"/home/pi/config2.toml\" got expected `=` \n"
    );
}

#[test]
fn start_channels_must_be_channel_numbers() {
    assert!(start_channel_valid("07"));
    assert!(start_channel_valid("+7"));
    assert!(start_channel_valid("99"));
    assert!(!start_channel_valid("100"));
    assert!(!start_channel_valid("-1"));
    assert!(!start_channel_valid(""));
    assert!(!start_channel_valid("1a"));
    assert!(!start_channel_valid("99999999999999999999999"));
}

#[test]
fn the_configuration_is_checked() {
    let mut c = Config::default();
    assert_eq!(check_config(&c, false, false, false), Ok(()));
    c.aural_notifications.filename_startup = Some("/ding.wav".to_string());
    assert_eq!(
        check_config(&c, false, true, false),
        Err("Startup file /ding.wav specified in TOML file but not found".to_string())
    );
    assert_eq!(check_config(&c, true, false, false), Ok(()));
    c.start_times = vec![StartTime { time: "07:30:00".to_string(), channel: "12".to_string() }];
    assert_eq!(check_config(&c, true, false, false), Ok(()));
    c.start_times.push(StartTime { time: "07:30:00".to_string(), channel: "123".to_string() });
    assert_eq!(check_config(&c, true, false, false), Err("Start channel 123 is invalid".to_string()));
    c.start_times.insert(0, StartTime { time: "25:99".to_string(), channel: "1".to_string() });
    let error = check_config(&c, true, false, false).unwrap_err();
    assert!(error.starts_with("When parsing the start time 25:99 got error "), "{error}");
}

#[test]
fn a_missing_error_sound_is_refused() {
    let mut c = Config::default();
    c.aural_notifications.filename_error = Some("/home/pi/error.wav".to_string());
    assert_eq!(
        check_config(&c, false, false, false),
        Err("filename_error file /home/pi/error.wav specified in TOML file but not found".to_string())
    );
    assert_eq!(check_config(&c, false, false, true), Ok(()));
}
