//! The configuration of the player, as read from its TOML configuration file.
use vstd::prelude::*;
use crate::play_channel::{tidy_error_message, tidy_toml_error};
use crate::player_status::NUMBER_OF_POSSIBLE_CHANNELS;
use crate::text::{all_decimal_digits, chars_of, debug_quote, debug_quoted, digits_value, is_decimal_digit};

verus! {

/// A time at which a channel starts to play by itself.
#[derive(Debug)]
pub struct StartTime {
    pub time: String,
    pub channel: String,
}

/// Authentication data for a Samba share.
#[derive(Debug)]
pub struct AuthenticationData {
    pub username: String,
    pub password: String,
}

impl AuthenticationData {
    /// A copy of the authentication data.
    pub fn duplicate(&self) -> (r: Self)
        ensures
            r == *self,
    {
        AuthenticationData { username: self.username.clone(), password: self.password.clone() }
    }
}

/// Details of a local memory stick, a Samba device or a CD drive.
#[derive(Debug)]
pub struct MediaDetails {
    /// eg  device = "//192.168.0.2/volume(sda1)" or "//192.168.0.2" if disk_identifier is specified
    pub device: String,
    /// Name of a file or folder that is on the device to be searched for.
    pub disk_identifier: Option<String>,
    /// contains username & password
    pub authentication_data: Option<AuthenticationData>,
    /// eg version = "3.0"
    pub version: Option<String>,
    /// Folder where the device will be mounted
    pub mount_folder: String,
    /// specifies if the device is mounted
    pub is_mounted: bool,
}

/// A copy of an optional string.
pub fn duplicate_option_string(s: &Option<String>) -> (r: Option<String>)
    ensures
        r == *s,
{
    match s {
        Some(v) => Some(v.clone()),
        None => None,
    }
}

impl MediaDetails {
    /// A copy of the media details.
    pub fn duplicate(&self) -> (r: Self)
        ensures
            r == *self,
    {
        MediaDetails {
            device: self.device.clone(),
            disk_identifier: duplicate_option_string(&self.disk_identifier),
            authentication_data: match &self.authentication_data {
                Some(a) => Some(a.duplicate()),
                None => None,
            },
            version: duplicate_option_string(&self.version),
            mount_folder: self.mount_folder.clone(),
            is_mounted: self.is_mounted,
        }
    }
}

/// A copy of optional media details.
pub fn duplicate_option_media_details(m: &Option<MediaDetails>) -> (r: Option<MediaDetails>)
    ensures
        r == *m,
{
    match m {
        Some(v) => Some(v.duplicate()),
        None => None,
    }
}

/// the default value for is_mounted
pub fn is_mounted_default() -> (r: bool)
    ensures
        r == false,
{
    false
}

/// the default value for mount_folder
pub fn empty_string() -> (r: String)
    ensures
        r@ == Seq::<char>::empty(),
{
    String::new()
}

/// the paramaters used by the scroll function
#[derive(Debug)]
pub struct Scroll {
    pub max_scroll: usize,
    pub min_scroll: usize,
    pub scroll_period_ms: u64,
}

/// Notifications allows rradio to play sounds to notify the user of events
#[derive(Debug)]
pub struct AuralNotifications {
    /// Ready for input ie the  ding played when the program starts
    pub filename_startup: Option<String>,
    /// Name of the file played at the end of the list of tracks, ie another ding
    pub filename_sound_at_end_of_playlist: Option<String>,
    /// Name of the file played if there is an error ie the error ding.
    pub filename_error: Option<String>,
}

/// Holds all the configuration information read from the TOML configuration file.
/// Durations are held as whole numbers: `input_timeout` in milliseconds, the others in
/// nanoseconds.
#[derive(Debug)]
pub struct Config {
    /// The folder that stores the stations
    pub stations_directory: String,
    /// The timeout when entering two digit station indices, in milliseconds
    pub input_timeout: u64,
    /// The change in volume when the user increments or decrements the volume
    pub volume_offset: i32,
    /// The inital volume when the program starts
    pub initial_volume: i32,
    /// the maximum amount of media data to buffer when streaming, in nanoseconds
    pub buffer_duration: Option<u64>,
    /// if the user preses "previous track" within this time (nanoseconds), the program goes to
    /// the start of the current track; if longer, to the previous track
    pub goto_previous_track_time_delta: u64,
    /// how long (nanoseconds) the initial message is shown after a channel change
    pub time_initial_message_displayed_after_channel_change: u64,
    pub max_number_of_remote_pings: u32,
    /// the parameters that specify how the scroll reacts
    pub scroll: Scroll,
    /// Notification sounds
    pub aural_notifications: AuralNotifications,
    /// list of times when the program automatically starts to play a channel
    pub start_times: Vec<StartTime>,
    /// the time in seconds that the position advances (or goes back) for a short step
    pub short_advance_time: i32,
    /// the time in seconds that the position advances (or goes back) for a long step
    pub long_advance_time: i32,
}

/// the default value for short_advance_time
pub fn short_advance_time_default() -> (r: i32)
    ensures
        r == 10,
{
    10
}

/// the default value for long_advance_time
pub fn long_advance_time_default() -> (r: i32)
    ensures
        r == 60,
{
    60
}

impl Default for Config {
    /// The configuration used when the program cannot find the config.toml file.
    fn default() -> (r: Self)
        ensures
            r.stations_directory@ == "/home/pi/playlists"@,
            r.input_timeout == 3000,
            r.volume_offset == 5,
            r.initial_volume == 70,
            r.buffer_duration is None,
            r.goto_previous_track_time_delta == 2_000_000_000,
            r.time_initial_message_displayed_after_channel_change == 3_000_000_000,
            r.scroll.max_scroll == 14,
            r.scroll.min_scroll == 6,
            r.scroll.scroll_period_ms == 1600,
            r.aural_notifications.filename_startup is None,
            r.aural_notifications.filename_sound_at_end_of_playlist is None,
            r.aural_notifications.filename_error is None,
            r.max_number_of_remote_pings == 15,
            r.short_advance_time == 10,
            r.long_advance_time == 60,
            r.start_times@.len() == 0,
    {
        Config {
            stations_directory: String::from_str("/home/pi/playlists"),
            input_timeout: 3000,
            volume_offset: 5,
            initial_volume: 70,
            buffer_duration: None,
            goto_previous_track_time_delta: 2_000_000_000,
            time_initial_message_displayed_after_channel_change: 3_000_000_000,
            scroll: Scroll { max_scroll: 14, min_scroll: 6, scroll_period_ms: 1600 },
            aural_notifications: AuralNotifications {
                filename_startup: None,
                filename_sound_at_end_of_playlist: None,
                filename_error: None,
            },
            max_number_of_remote_pings: 15,
            short_advance_time: short_advance_time_default(),
            long_advance_time: long_advance_time_default(),
            start_times: Vec::new(),
        }
    }
}


/// What the program's arguments ask for: the configuration file to use (or the error for
/// arguments it does not understand), and how many times the version is to be printed.
#[derive(Debug)]
pub struct ConfigArguments {
    pub config_file_path: Result<String, String>,
    pub version_requests: u64,
}

/// The configuration file path that the arguments give, as `get_config_file_path` reads
/// them: `-c`, `-C` or `--config` followed by a file name sets it, `-V`, `-v` or
/// `--version` asks for the version, anything else is an error.
pub open spec fn config_path_from_args(current: Seq<char>, args: Seq<Seq<char>>) -> Result<Seq<char>, Seq<char>>
    decreases args.len(),
{
    if args.len() == 0 {
        Ok(current)
    } else {
        let arg = args[0];
        if arg == "-c"@ || arg == "-C"@ || arg == "--config"@ {
            if args.len() < 2 {
                Err("the format is -c followed by the file name, but could not find the file name."@)
            } else {
                config_path_from_args(args[1], args.subrange(2, args.len() as int))
            }
        } else if arg == "-V"@ || arg == "-v"@ || arg == "--version"@ {
            config_path_from_args(current, args.drop_first())
        } else {
            Err("unhandled argument  "@ + debug_quoted(arg)
                + ". Valid arguments are -c then the config file name or -V"@)
        }
    }
}

/// Whether an argument asks for the version.
pub open spec fn is_version_argument(arg: Seq<char>) -> bool {
    arg == "-V"@ || arg == "-v"@ || arg == "--version"@
}

/// Whether an argument names the configuration file.
pub open spec fn is_config_argument(arg: Seq<char>) -> bool {
    arg == "-c"@ || arg == "-C"@ || arg == "--config"@
}

/// Reads the program's arguments (without the program's own name) as `get_config_file_path`
/// does, starting from the default path.
pub fn config_file_path_from_args(default_toml_path: &str, args: &Vec<String>) -> (r: ConfigArguments)
    ensures
        r.config_file_path matches Ok(p) ==> config_path_from_args(default_toml_path@, crate::text::views_of(args@)) == Ok::<Seq<char>, Seq<char>>(p@),
        r.config_file_path matches Err(e) ==> config_path_from_args(default_toml_path@, crate::text::views_of(args@)) == Err::<Seq<char>, Seq<char>>(e@),
{
    let ghost all = crate::text::views_of(args@);
    let mut current = String::from_str(default_toml_path);
    let mut version_requests: u64 = 0;
    let mut i: usize = 0;
    assert(all.subrange(0, all.len() as int) =~= all);
    while i < args.len()
        invariant
            i <= args@.len(),
            all == crate::text::views_of(args@),
            config_path_from_args(default_toml_path@, all) == config_path_from_args(
                current@,
                all.subrange(i as int, all.len() as int),
            ),
        decreases args@.len() - i,
    {
        let arg = args[i].as_str();
        let ghost rest = all.subrange(i as int, all.len() as int);
        assert(rest[0] == arg@);
        if crate::text::str_eq(arg, "-c") || crate::text::str_eq(arg, "-C") || crate::text::str_eq(arg, "--config") {
            if i + 1 >= args.len() {
                return ConfigArguments {
                    config_file_path: Err(String::from_str(
                        "the format is -c followed by the file name, but could not find the file name.",
                    )),
                    version_requests,
                };
            }
            assert(rest[1] == args@[i + 1]@);
            assert(rest.subrange(2, rest.len() as int) =~= all.subrange(i + 2, all.len() as int));
            current = args[i + 1].clone();
            i = i + 2;
        } else if crate::text::str_eq(arg, "-V") || crate::text::str_eq(arg, "-v") || crate::text::str_eq(arg, "--version") {
            if version_requests < u64::MAX {
                version_requests = version_requests + 1;
            }
            assert(rest.drop_first() =~= all.subrange(i + 1, all.len() as int));
            i = i + 1;
        } else {
            let mut e = String::from_str("unhandled argument  ");
            let quoted = debug_quote(arg);
            e.append(quoted.as_str());
            e.append(". Valid arguments are -c then the config file name or -V");
            return ConfigArguments { config_file_path: Err(e), version_requests };
        }
    }
    ConfigArguments { config_file_path: Ok(current), version_requests }
}

/// The error given when the configuration file could not be parsed: the file's path,
/// quoted, and the tidied parse error.
pub open spec fn config_parse_error_text(config_file_path: Seq<char>, error_message: Seq<char>) -> Seq<char> {
    "Using file "@ + debug_quoted(config_file_path) + " got "@ + tidy_toml_error(error_message) + "\n"@
}

/// The error given when the configuration file could not be parsed.
pub fn config_parse_error(config_file_path: &str, error_message: &str) -> (r: String)
    ensures
        r@ == config_parse_error_text(config_file_path@, error_message@),
{
    let mut r = String::from_str("Using file ");
    let quoted = debug_quote(config_file_path);
    r.append(quoted.as_str());
    r.append(" got ");
    let tidy = tidy_error_message(error_message);
    r.append(tidy.as_str());
    r.append("\n");
    r
}

/// What parsing a text as a `chrono::DateTime<Utc>` gives: `None` when it parses, else the
/// text of chrono's parse error.
pub uninterp spec fn utc_date_time_parse_error(s: Seq<char>) -> Option<Seq<char>>;

/// Calls `str::parse::<chrono::DateTime<chrono::Utc>>`. Claimed: whether it parses, and the
/// text of the error when it does not, are a function of the text alone, named
/// `utc_date_time_parse_error`; nothing more is claimed of chrono's parser.
#[verifier::external_body]
fn parse_utc_date_time(s: &str) -> (r: Option<String>)
    ensures
        r matches Some(e) ==> utc_date_time_parse_error(s@) == Some(e@),
        r is None ==> utc_date_time_parse_error(s@) is None,
{
    match s.parse::<chrono::DateTime<chrono::Utc>>() {
        Ok(_) => None,
        Err(error) => Some(error.to_string()),
    }
}

/// The date and time parsed to check a start time (the date is arbitrary).
pub open spec fn start_time_text(time: Seq<char>) -> Seq<char> {
    "2023-09-19T"@ + time + "Z"@
}

/// The digits of a number: the text without a leading `+`.
pub open spec fn number_digits(s: Seq<char>) -> Seq<char> {
    if s.len() > 0 && s[0] == '+' {
        s.drop_first()
    } else {
        s
    }
}

/// The number that `str::parse::<usize>` reads from a text, where it fits: an optional `+`
/// and one or more decimal digits.
pub open spec fn parsed_number(s: Seq<char>) -> Option<nat> {
    let digits = number_digits(s);
    if digits.len() > 0 && all_decimal_digits(digits) {
        Some(digits_value(digits))
    } else {
        None
    }
}

/// A start channel is valid when it reads as a channel number the user can type.
pub open spec fn start_channel_is_valid(channel: Seq<char>) -> bool {
    parsed_number(channel) matches Some(n) && n < NUMBER_OF_POSSIBLE_CHANNELS
}

/// Whether a start channel reads as a channel number the user can type.
pub fn start_channel_valid(channel: &str) -> (r: bool)
    ensures
        r == start_channel_is_valid(channel@),
{
    let chars = chars_of(channel);
    let start: usize = if chars.len() > 0 && chars[0] == '+' {
        1
    } else {
        0
    };
    let ghost digits = chars@.subrange(start as int, chars@.len() as int);
    assert(digits =~= number_digits(chars@));
    if start >= chars.len() {
        return false;
    }
    let mut value: u64 = 0;
    let mut big = false;
    let mut i = start;
    while i < chars.len()
        invariant
            start <= i <= chars@.len(),
            chars@ == channel@,
            digits == chars@.subrange(start as int, chars@.len() as int),
            digits == number_digits(channel@),
            forall|k: int| start <= k < i ==> is_decimal_digit(#[trigger] chars@[k]),
            !big ==> value == digits_value(chars@.subrange(start as int, i as int)) && value < 100,
            big ==> digits_value(chars@.subrange(start as int, i as int)) >= 100,
        decreases chars@.len() - i,
    {
        let c = chars[i];
        if !('0' <= c && c <= '9') {
            assert(digits[i - start] == c);
            assert(!is_decimal_digit(digits[i - start]));
            return false;
        }
        let d = (c as u32 - '0' as u32) as u64;
        assert(chars@.subrange(start as int, i + 1).drop_last() =~= chars@.subrange(start as int, i as int));
        if !big {
            let next = 10 * value + d;
            if next >= 100 {
                big = true;
            } else {
                value = next;
            }
        }
        i = i + 1;
    }
    assert(chars@.subrange(start as int, i as int) =~= digits);
    assert forall|k: int| 0 <= k < digits.len() implies is_decimal_digit(#[trigger] digits[k]) by {
        assert(digits[k] == chars@[k + start]);
    }
    !big
}

/// The first check of `Config::from_file` that fails, if any: a configured start-up,
/// end-of-playlist or error sound (a file to be played to the user) whose file does not
/// exist, then each start time that does not parse or whose channel is not valid.
pub open spec fn config_check_failure(
    config: Config,
    startup_file_exists: bool,
    end_file_exists: bool,
    error_file_exists: bool,
) -> Option<Seq<char>> {
    if config.aural_notifications.filename_startup is Some && !startup_file_exists {
        Some("Startup file "@ + config.aural_notifications.filename_startup->0@ + " specified in TOML file but not found"@)
    } else if config.aural_notifications.filename_sound_at_end_of_playlist is Some && !end_file_exists {
        Some("filename_sound_at_end_of_playlist file "@ + config.aural_notifications.filename_sound_at_end_of_playlist->0@
            + " specified in TOML file but not found"@)
    } else if config.aural_notifications.filename_error is Some && !error_file_exists {
        Some("filename_error file "@ + config.aural_notifications.filename_error->0@
            + " specified in TOML file but not found"@)
    } else {
        start_time_failure(config.start_times@)
    }
}

/// The first start time that does not parse, or whose channel is not valid.
pub open spec fn start_time_failure(start_times: Seq<StartTime>) -> Option<Seq<char>>
    decreases start_times.len(),
{
    if start_times.len() == 0 {
        None
    } else {
        let t = start_times[0];
        match utc_date_time_parse_error(start_time_text(t.time@)) {
            Some(e) => Some("When parsing the start time "@ + t.time@ + " got error "@ + e),
            None => if !start_channel_is_valid(t.channel@) {
                Some("Start channel "@ + t.channel@ + " is invalid"@)
            } else {
                start_time_failure(start_times.drop_first())
            },
        }
    }
}

/// The checks that `Config::from_file` makes of a parsed configuration (see
/// `config_check_failure`); whether the three sound files exist is given by the caller.
pub fn check_config(
    config: &Config,
    startup_file_exists: bool,
    end_file_exists: bool,
    error_file_exists: bool,
) -> (r: Result<(), String>)
    ensures
        match config_check_failure(*config, startup_file_exists, end_file_exists, error_file_exists) {
            Some(e) => r matches Err(m) && m@ == e,
            None => r is Ok,
        },
{
    if let Some(filename_startup) = &config.aural_notifications.filename_startup {
        if !startup_file_exists {
            let mut m = String::from_str("Startup file ");
            m.append(filename_startup.as_str());
            m.append(" specified in TOML file but not found");
            assert(m@ =~= config_check_failure(*config, startup_file_exists, end_file_exists, error_file_exists)->0);
            return Err(m);
        }
    }
    if let Some(end_file) = &config.aural_notifications.filename_sound_at_end_of_playlist {
        if !end_file_exists {
            let mut m = String::from_str("filename_sound_at_end_of_playlist file ");
            m.append(end_file.as_str());
            m.append(" specified in TOML file but not found");
            assert(m@ =~= config_check_failure(*config, startup_file_exists, end_file_exists, error_file_exists)->0);
            return Err(m);
        }
    }
    if let Some(error_file) = &config.aural_notifications.filename_error {
        if !error_file_exists {
            let mut m = String::from_str("filename_error file ");
            m.append(error_file.as_str());
            m.append(" specified in TOML file but not found");
            assert(m@ =~= config_check_failure(*config, startup_file_exists, end_file_exists, error_file_exists)->0);
            return Err(m);
        }
    }
    let ghost all = config.start_times@;
    let mut i: usize = 0;
    assert(all.subrange(0, all.len() as int) =~= all);
    while i < config.start_times.len()
        invariant
            i <= all.len(),
            all == config.start_times@,
            config_check_failure(*config, startup_file_exists, end_file_exists, error_file_exists) == start_time_failure(all),
            start_time_failure(all) == start_time_failure(all.subrange(i as int, all.len() as int)),
        decreases all.len() - i,
    {
        let start_time = &config.start_times[i];
        let ghost rest = all.subrange(i as int, all.len() as int);
        assert(rest[0] == *start_time);
        assert(rest.drop_first() =~= all.subrange(i + 1, all.len() as int));
        let mut text = String::from_str("2023-09-19T");
        text.append(start_time.time.as_str());
        text.append("Z");
        if let Some(error) = parse_utc_date_time(text.as_str()) {
            let mut m = String::from_str("When parsing the start time ");
            m.append(start_time.time.as_str());
            m.append(" got error ");
            m.append(error.as_str());
            return Err(m);
        }
        if !start_channel_valid(start_time.channel.as_str()) {
            let mut m = String::from_str("Start channel ");
            m.append(start_time.channel.as_str());
            m.append(" is invalid");
            return Err(m);
        }
        i = i + 1;
    }
    assert(all.subrange(i as int, all.len() as int).len() == 0);
    Ok(())
}

/// `-c`, `-C` or `--config` followed by a name makes that name the configuration file, in
/// place of the one given so far, and reading goes on after the name.
pub proof fn lemma_config_argument_names_the_file(
    current: Seq<char>,
    flag: Seq<char>,
    name: Seq<char>,
    rest: Seq<Seq<char>>,
)
    requires
        flag == "-c"@ || flag == "-C"@ || flag == "--config"@,
    ensures
        config_path_from_args(current, seq![flag, name] + rest) == config_path_from_args(name, rest),
        config_path_from_args(current, seq![flag, name]) == Ok::<Seq<char>, Seq<char>>(name),
{
    let args = seq![flag, name] + rest;
    assert(args[0] == flag);
    assert(args[1] == name);
    assert(args.subrange(2, args.len() as int) =~= rest);
    let only = seq![flag, name];
    assert(only[0] == flag);
    assert(only[1] == name);
    assert(only.subrange(2, only.len() as int) =~= Seq::<Seq<char>>::empty());
    assert(config_path_from_args(name, Seq::<Seq<char>>::empty()) == Ok::<Seq<char>, Seq<char>>(name));
}

/// `-V`, `-v` or `--version` leaves the configuration file as it is.
pub proof fn lemma_version_argument_keeps_the_file(current: Seq<char>, flag: Seq<char>, rest: Seq<Seq<char>>)
    requires
        flag == "-V"@ || flag == "-v"@ || flag == "--version"@,
    ensures
        config_path_from_args(current, seq![flag] + rest) == config_path_from_args(current, rest),
{
    reveal_strlit("-c");
    reveal_strlit("-C");
    reveal_strlit("--config");
    reveal_strlit("-V");
    reveal_strlit("-v");
    reveal_strlit("--version");
    assert(flag[0] == '-');
    assert(flag.len() == 2 ==> flag[1] == 'V' || flag[1] == 'v');
    assert(flag != "-c"@ && flag != "-C"@ && flag != "--config"@) by {
        if flag == "-c"@ {
            assert(flag[1] == "-c"@[1]);
        }
        if flag == "-C"@ {
            assert(flag[1] == "-C"@[1]);
        }
        if flag == "--config"@ {
            assert(flag.len() == "--config"@.len());
        }
    }
    let args = seq![flag] + rest;
    assert(args[0] == flag);
    assert(args.drop_first() =~= rest);
}

/// Without arguments the default file is used.
pub proof fn lemma_no_arguments_keep_the_default(current: Seq<char>)
    ensures
        config_path_from_args(current, Seq::empty()) == Ok::<Seq<char>, Seq<char>>(current),
{
}

/// Any argument other than the configuration and version flags is refused with an error.
pub proof fn lemma_other_arguments_are_refused(current: Seq<char>, arg: Seq<char>, rest: Seq<Seq<char>>)
    requires
        arg != "-c"@ && arg != "-C"@ && arg != "--config"@,
        arg != "-V"@ && arg != "-v"@ && arg != "--version"@,
    ensures
        config_path_from_args(current, seq![arg] + rest) is Err,
{
    let args = seq![arg] + rest;
    assert(args[0] == arg);
}

} // verus!
