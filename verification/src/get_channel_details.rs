//! The details of the channel about to be played: its source type, its list of tracks and
//! the errors met while finding them.
use vstd::prelude::*;
use rand::seq::SliceRandom;
use substring::Substring;
use vstd::string::StringSliceAdditionalSpecFns;
use crate::read_config::{MediaDetails, duplicate_option_media_details};
use crate::text::{
    append_i64, append_u64, decimal, chars_of, find, find_exec, lemma_find_from, matches_at, signed_decimal,
    string_from_chars, sub_vec, ascii_lowercase, ascii_lowercase_exec, pad_left,
    append_padded_left, u64_to_string, starts_with, str_starts_with, views_of,
};

verus! {

/// enum of the possible media types
#[derive(Debug, Clone, Copy, PartialEq, Eq, Structural)]
pub enum SourceType {
    /// will be unknown if the channel cannot be found.
    UnknownSource,
    /// a list of URLs to play
    UrlList,
    Cd,
    /// we will play random tracks on this local or remote USB device
    Usb,
}

/// The text shown for a source type.
pub open spec fn source_type_text(s: SourceType) -> Seq<char> {
    match s {
        SourceType::Cd => "CD"@,
        SourceType::Usb => "USB"@,
        SourceType::UrlList => "URL"@,
        SourceType::UnknownSource => "Source type is unknown; programming error"@,
    }
}

impl SourceType {
    /// The text shown for the source type.
    pub fn to_display_string(&self) -> (r: String)
        ensures
            r@ == source_type_text(*self),
    {
        match self {
            SourceType::Cd => String::from_str("CD"),
            SourceType::Usb => String::from_str("USB"),
            SourceType::UrlList => String::from_str("URL"),
            SourceType::UnknownSource => String::from_str("Source type is unknown; programming error"),
        }
    }
}

/// Decoded data sucessfully read from the station channel file, ie organisaton, source_type,
/// if the last track is a ding, pause_before_playing_ms, media_details & station_urls as a Vec,
#[derive(Debug)]
pub struct ChannelFileDataDecoded {
    /// The name of the organisation    eg       organisation = "Tradcan"
    pub organisation: String,
    /// The type of the source, such as URL list, CD, USB or unknown
    pub source_type: SourceType,
    /// True if the last entry in URL list is a ding.
    pub last_track_is_a_ding: bool,
    pub pause_before_playing_ms: Option<u64>,
    /// True if random tracks are wanted.
    pub random_tracks_wanted: bool,
    /// true if the channel data has been initialised
    pub data_is_initialised: bool,
    pub media_details: Option<MediaDetails>,
    /// What to play    eg  station_url = "https://dc1.serverse.com/proxy/wiupfvnu?mp=/TradCan\"
    pub station_url: Vec<String>,
}

/// The default value for station_url
pub fn station_url_default() -> (r: Vec<String>)
    ensures
        r@.len() == 0,
{
    Vec::new()
}

/// the default value for organisation
pub fn organisation() -> (r: String)
    ensures
        r@ == Seq::<char>::empty(),
{
    String::new()
}

/// the default value for flags that start false
pub fn is_false() -> (r: bool)
    ensures
        r == false,
{
    false
}

/// the default value for unknown sources
pub fn default_source_type() -> (r: SourceType)
    ensures
        r == SourceType::UnknownSource,
{
    SourceType::UnknownSource
}

/// A copy of a list of strings.
pub fn duplicate_strings(v: &Vec<String>) -> (r: Vec<String>)
    ensures
        r@ == v@,
{
    let mut r: Vec<String> = Vec::new();
    let mut i: usize = 0;
    while i < v.len()
        invariant
            i <= v@.len(),
            r@ == v@.subrange(0, i as int),
        decreases v@.len() - i,
    {
        r.push(v[i].clone());
        assert(v@.subrange(0, i + 1) =~= v@.subrange(0, i as int).push(v@[i as int]));
        i = i + 1;
    }
    assert(v@.subrange(0, i as int) =~= v@);
    r
}

impl ChannelFileDataDecoded {
    /// The two hold the same data.
    pub open spec fn same_as(self, other: Self) -> bool {
        &&& self.organisation == other.organisation
        &&& self.source_type == other.source_type
        &&& self.last_track_is_a_ding == other.last_track_is_a_ding
        &&& self.pause_before_playing_ms == other.pause_before_playing_ms
        &&& self.random_tracks_wanted == other.random_tracks_wanted
        &&& self.data_is_initialised == other.data_is_initialised
        &&& self.media_details == other.media_details
        &&& self.station_url@ == other.station_url@
    }

    /// Empty channel data of unknown source.
    pub fn new() -> (r: Self)
        ensures
            r.organisation@ == Seq::<char>::empty(),
            r.station_url@.len() == 0,
            r.source_type == SourceType::UnknownSource,
            !r.last_track_is_a_ding,
            r.pause_before_playing_ms is None,
            r.media_details is None,
            !r.random_tracks_wanted,
            !r.data_is_initialised,
    {
        Self {
            organisation: String::new(),
            station_url: Vec::new(),
            source_type: SourceType::UnknownSource,
            last_track_is_a_ding: false,
            pause_before_playing_ms: None,
            media_details: None,
            random_tracks_wanted: false,
            data_is_initialised: false,
        }
    }

    /// A copy of the channel data.
    pub fn duplicate(&self) -> (r: Self)
        ensures
            r.same_as(*self),
    {
        let station_url = duplicate_strings(&self.station_url);
        Self {
            organisation: self.organisation.clone(),
            source_type: self.source_type,
            last_track_is_a_ding: self.last_track_is_a_ding,
            pause_before_playing_ms: self.pause_before_playing_ms,
            random_tracks_wanted: self.random_tracks_wanted,
            data_is_initialised: self.data_is_initialised,
            media_details: duplicate_option_media_details(&self.media_details),
            station_url,
        }
    }
}

impl Default for ChannelFileDataDecoded {
    /// Empty channel data of unknown source, as `new` gives.
    fn default() -> (r: Self)
        ensures
            r.organisation@ == Seq::<char>::empty(),
            r.station_url@.len() == 0,
            r.source_type == SourceType::UnknownSource,
            !r.last_track_is_a_ding,
            r.pause_before_playing_ms is None,
            r.media_details is None,
            !r.random_tracks_wanted,
            !r.data_is_initialised,
    {
        ChannelFileDataDecoded::new()
    }
}

/// an enum of errors returned by get_channel_details
#[derive(Debug)]
pub enum ChannelErrorEvents {
    /// The message returned if the user enters a channel number that does not exist
    CouldNotFindChannelFile,
    /// When enumerating the Samba files, could not find a folder or file with the specified name
    CouldNotFindSambaShareWithFolder(Option<String>),
    /// Could not read the channels folder (eg \boot\playlists\) that contains all the channel files
    CouldNotReadChannelsFolder { channels_folder: String, error_message: String },
    /// Got an error reading the folder entry
    ErrorReadingFolderEntry { error_message: String },
    /// For some reason we found the channel file, but could not read it.
    CouldNotReadChannelFile { path_to_channel_file: String, error_message: String },
    /// We read the channel file, but could not parse it
    CouldNotParseChannelFile { channel_number: usize, error_message: String },
    /// Could not enumerate the Samba device
    CouldNotEnumerateSamba(String),
    /// Could not find the album specifed in the play list, possibly because the wrong memory stick is inserted
    CouldNotFindAlbum(String),
    /// No USBDevice
    NoUSBDevice,
    /// is the problem that the SAMBA device has the wrong letter pattern associated with it eg sdb1, not sda1
    NoSuchDeviceOrDirectory(String),
    /// USB mount error other than no USB device;
    /// the string contains the reason return by the Operating System
    UsbMountMountError(String),
    /// Error when trying to read a USB memory stick
    USBReadReadError(String),
    /// failed to open the CD drive, when trying to get the file descriptor
    FailedToOpenCdDrive(Option<i32>),
    /// failed to get the drive or disk details
    FailedtoGetCDdriveOrDiskStatus(i32),
    /// could not get the number of tracks on the CD
    CouldNotGetNumberOfCDTracks(i32),
    /// probably a bug as there should be files
    NoFilesInArray,
    /// the channel names media, but its source type is not one that can be mounted
    MediaNotMountabletype(SourceType),
}

/// The text shown on the LCD screen for an error.
pub open spec fn lcd_screen_text(e: ChannelErrorEvents) -> Seq<char> {
    match e {
        ChannelErrorEvents::CouldNotFindChannelFile => "CouldNotFindChannelFile"@,
        ChannelErrorEvents::CouldNotFindSambaShareWithFolder(folder_name) => match folder_name {
            Some(m) => "When enumerating the Samba shares could not find folder/file "@ + m@,
            None => "Software bug in error message"@,
        },
        ChannelErrorEvents::CouldNotParseChannelFile { channel_number, error_message } =>
            decimal(channel_number as nat) + ", "@ + error_message@,
        ChannelErrorEvents::CouldNotFindAlbum(album_name) => "Could not find "@ + album_name@,
        ChannelErrorEvents::CouldNotReadChannelFile { path_to_channel_file, error_message } =>
            "Could not read channel file "@ + path_to_channel_file@ + "; got error "@ + error_message@,
        ChannelErrorEvents::CouldNotEnumerateSamba(m) => "Could not enumerate Samba "@ + m@,
        ChannelErrorEvents::NoSuchDeviceOrDirectory(bad_path) => "Could not find device on path"@ + bad_path@,
        ChannelErrorEvents::CouldNotReadChannelsFolder { channels_folder, error_message } =>
            "Could not read channels folder "@ + channels_folder@ + "; got error "@ + error_message@,
        ChannelErrorEvents::ErrorReadingFolderEntry { error_message } =>
            "Error reading channel folder entry "@ + error_message@,
        ChannelErrorEvents::NoUSBDevice => "No USB device found"@,
        ChannelErrorEvents::UsbMountMountError(m) => "When trying to mount a USB device got error "@ + m@,
        ChannelErrorEvents::USBReadReadError(m) => "When trying to read USB memory stick got error "@ + m@,
        ChannelErrorEvents::FailedToOpenCdDrive(error_as_option) => match error_as_option {
            Some(error) => if error == 2 {
                "No CD drive"@
            } else if error == 123 {
                "No CD in drive"@
            } else {
                "CD Open error "@ + signed_decimal(error as int)
            },
            None => "CD open error None"@,
        },
        ChannelErrorEvents::FailedtoGetCDdriveOrDiskStatus(error) => if error == 0 {
            "No info on CD in drive"@
        } else if error == 1 {
            "no CD in drive."@
        } else if error == 2 {
            "CD drive tray open"@
        } else if error == 3 {
            "CD drive not ready"@
        } else if 101 <= error <= 104 {
            "Data CD no audio"@
        } else if error == -1 {
            "bad CD error from OS"@
        } else {
            "unexpected CD error "@ + signed_decimal(error as int)
        },
        ChannelErrorEvents::CouldNotGetNumberOfCDTracks(error) =>
            "When getting number of CD tracks, got error "@ + signed_decimal(error as int),
        ChannelErrorEvents::NoFilesInArray => "Probably hit a bug as there were no files in the array"@,
        ChannelErrorEvents::MediaNotMountabletype(source_type) =>
            "Media of source type "@ + source_type_text(source_type) + " cannot be mounted"@,
    }
}

/// A string holding `a` followed by `b`.
fn join2(a: &str, b: &str) -> (r: String)
    ensures
        r@ == a@ + b@,
{
    let mut r = String::from_str(a);
    r.append(b);
    r
}

/// A string holding `a`, `b`, `c` and `d` in turn.
fn join4(a: &str, b: &str, c: &str, d: &str) -> (r: String)
    ensures
        r@ == a@ + b@ + c@ + d@,
{
    let mut r = String::from_str(a);
    r.append(b);
    r.append(c);
    r.append(d);
    r
}

/// A string holding `a` followed by the decimal form of `n`.
fn join_number(a: &str, n: i64) -> (r: String)
    ensures
        r@ == a@ + signed_decimal(n as int),
{
    let mut r = String::from_str(a);
    append_i64(&mut r, n);
    r
}

impl ChannelErrorEvents {
    /// Given an error enum, returns a string to go on the LCD screen
    pub fn to_lcd_screen(&self) -> (r: String)
        ensures
            r@ == lcd_screen_text(*self),
    {
        match self {
            ChannelErrorEvents::CouldNotFindChannelFile => String::from_str("CouldNotFindChannelFile"),
            ChannelErrorEvents::CouldNotFindSambaShareWithFolder(folder_name) => {
                match folder_name {
                    Some(error_message) => join2(
                        "When enumerating the Samba shares could not find folder/file ",
                        error_message.as_str(),
                    ),
                    None => String::from_str("Software bug in error message"),
                }
            },
            ChannelErrorEvents::CouldNotParseChannelFile { channel_number, error_message } => {
                let mut r = String::new();
                append_u64(&mut r, *channel_number as u64);
                r.append(", ");
                r.append(error_message.as_str());
                r
            },
            ChannelErrorEvents::CouldNotFindAlbum(album_name) => join2("Could not find ", album_name.as_str()),
            ChannelErrorEvents::CouldNotReadChannelFile { path_to_channel_file, error_message } => join4(
                "Could not read channel file ",
                path_to_channel_file.as_str(),
                "; got error ",
                error_message.as_str(),
            ),
            ChannelErrorEvents::CouldNotEnumerateSamba(error_message) => join2(
                "Could not enumerate Samba ",
                error_message.as_str(),
            ),
            ChannelErrorEvents::NoSuchDeviceOrDirectory(bad_path) => join2(
                "Could not find device on path",
                bad_path.as_str(),
            ),
            ChannelErrorEvents::CouldNotReadChannelsFolder { channels_folder, error_message } => join4(
                "Could not read channels folder ",
                channels_folder.as_str(),
                "; got error ",
                error_message.as_str(),
            ),
            ChannelErrorEvents::ErrorReadingFolderEntry { error_message } => join2(
                "Error reading channel folder entry ",
                error_message.as_str(),
            ),
            ChannelErrorEvents::NoUSBDevice => String::from_str("No USB device found"),
            ChannelErrorEvents::UsbMountMountError(error_message) => join2(
                "When trying to mount a USB device got error ",
                error_message.as_str(),
            ),
            ChannelErrorEvents::USBReadReadError(error_message) => join2(
                "When trying to read USB memory stick got error ",
                error_message.as_str(),
            ),
            ChannelErrorEvents::FailedToOpenCdDrive(error_as_option) => {
                match error_as_option {
                    Some(error) => {
                        if *error == 2 {
                            String::from_str("No CD drive")
                        } else if *error == 123 {
                            String::from_str("No CD in drive")
                        } else {
                            join_number("CD Open error ", *error as i64)
                        }
                    },
                    None => String::from_str("CD open error None"),
                }
            },
            ChannelErrorEvents::FailedtoGetCDdriveOrDiskStatus(error) => {
                let error = *error;
                if error == 0 {
                    String::from_str("No info on CD in drive")
                } else if error == 1 {
                    String::from_str("no CD in drive.")
                } else if error == 2 {
                    String::from_str("CD drive tray open")
                } else if error == 3 {
                    String::from_str("CD drive not ready")
                } else if 101 <= error && error <= 104 {
                    String::from_str("Data CD no audio")
                } else if error == -1 {
                    String::from_str("bad CD error from OS")
                } else {
                    join_number("unexpected CD error ", error as i64)
                }
            },
            ChannelErrorEvents::CouldNotGetNumberOfCDTracks(error) => join_number(
                "When getting number of CD tracks, got error ",
                *error as i64,
            ),
            ChannelErrorEvents::NoFilesInArray => String::from_str(
                "Probably hit a bug as there were no files in the array",
            ),
            ChannelErrorEvents::MediaNotMountabletype(source_type) => {
                let mut r = String::from_str("Media of source type ");
                let t = source_type.to_display_string();
                r.append(t.as_str());
                r.append(" cannot be mounted");
                r
            },
        }
    }
}

/// The characters `//`.
pub open spec fn double_slash() -> Seq<char> {
    seq!['/', '/']
}

/// `s` cut at the first occurrence of the character `c`, if any.
pub open spec fn cut_at(s: Seq<char>, c: char) -> Seq<char> {
    match find(s, seq![c]) {
        Some(i) => s.subrange(0, i),
        None => s,
    }
}

/// The host part of a URL: what follows the first `//`, without path or port.
/// A string without `//` (such as an IP address) is its own host.
pub open spec fn host_of(url: Seq<char>) -> Seq<char> {
    match find(url, double_slash()) {
        None => url,
        Some(p) => cut_at(cut_at(url.subrange(p + 2, url.len() as int), '/'), ':'),
    }
}

/// The characters of `s` up to the first `c`.
fn cut_at_exec(s: &Vec<char>, c: char) -> (r: Vec<char>)
    ensures
        r@ == cut_at(s@, c),
{
    let mut p: Vec<char> = Vec::new();
    p.push(c);
    assert(p@ =~= seq![c]);
    match find_exec(s, &p) {
        Some(i) => {
            proof {
                lemma_find_from(s@, p@, 0);
            }
            sub_vec(s, 0, i)
        },
        None => sub_vec(s, 0, s.len()),
    }
}

/// An address without `//`, such as a plain IP address, is its own host: it is pinged as
/// it is.
pub proof fn lemma_plain_address_unchanged(url: Seq<char>)
    requires
        !crate::text::contains(url, double_slash()),
    ensures
        host_of(url) == url,
{
}

/// Given a URL (starting with http) & optionally a port number it extracts the station address.
/// Given an IP address, it returns the IP address unchanged.
pub fn get_ip_address(url: String) -> (r: String)
    ensures
        r@ == host_of(url@),
{
    let s = chars_of(url.as_str());
    let mut ds: Vec<char> = Vec::new();
    ds.push('/');
    ds.push('/');
    assert(ds@ =~= double_slash());
    match find_exec(&s, &ds) {
        Some(position_double_slash) => {
            proof {
                lemma_find_from(s@, ds@, 0);
                assert(matches_at(s@, ds@, position_double_slash as int));
                assert(position_double_slash + 2 <= s@.len());
            }
            let s_len = s.len();
            let after = sub_vec(&s, position_double_slash + 2, s_len);
            let without_suffix = cut_at_exec(&after, '/');
            let without_port = cut_at_exec(&without_suffix, ':');
            string_from_chars(&without_port, 0, without_port.len())
        },
        None => {
            assert(s@.subrange(0, s@.len() as int) =~= s@);
            url
        },
    }
}

/// The index of the last `.` in `name`, if any.
pub open spec fn last_dot(name: Seq<char>) -> Option<int>
    decreases name.len(),
{
    if name.len() == 0 {
        None
    } else if name.last() == '.' {
        Some(name.len() - 1)
    } else {
        last_dot(name.drop_last())
    }
}

/// The extension of a file name as `Path::extension` gives it: what follows the last `.`,
/// when something precedes that dot and the name is not `..`.
pub open spec fn extension_of(name: Seq<char>) -> Option<Seq<char>> {
    if name == seq!['.', '.'] {
        None
    } else {
        match last_dot(name) {
            None => None,
            Some(i) => if i == 0 {
                None
            } else {
                Some(name.subrange(i + 1, name.len() as int))
            },
        }
    }
}

/// The audio file extensions that can be played.
pub open spec fn supported_extensions() -> Seq<Seq<char>> {
    seq![seq!['m', 'p', '3'], seq!['w', 'a', 'v'], seq!['o', 'g', 'g'], seq!['f', 'l', 'a', 'c'], seq!['m', '4', 'a']]
}

/// The file name has one of the supported audio extensions, in any ASCII case.
pub open spec fn is_supported_file_name(name: Seq<char>) -> bool {
    match extension_of(name) {
        Some(e) => supported_extensions().contains(ascii_lowercase(e)),
        None => false,
    }
}

/// The index of the last `.` in `v`.
fn last_dot_exec(v: &Vec<char>) -> (r: Option<usize>)
    ensures
        r matches Some(i) ==> last_dot(v@) == Some(i as int),
        r is None ==> last_dot(v@) is None,
{
    let mut i = v.len();
    assert(v@.subrange(0, i as int) =~= v@);
    while i > 0
        invariant
            i <= v@.len(),
            last_dot(v@) == last_dot(v@.subrange(0, i as int)),
        decreases i,
    {
        assert(v@.subrange(0, i - 1) =~= v@.subrange(0, i as int).drop_last());
        if v[i - 1] == '.' {
            return Some(i - 1);
        }
        i = i - 1;
    }
    assert(v@.subrange(0, 0) =~= Seq::<char>::empty());
    None
}

/// Whether `v` equals the characters of `word`.
fn chars_equal(v: &Vec<char>, Ghost(word): Ghost<Seq<char>>, w0: char, w1: char, w2: char, w3: char, n: usize) -> (r: bool)
    requires
        3 <= n <= 4,
        word.len() == n,
        word[0] == w0,
        word[1] == w1,
        word[2] == w2,
        n == 4 ==> word[3] == w3,
    ensures
        r == (v@ == word),
{
    if v.len() != n {
        return false;
    }
    let r = v[0] == w0 && v[1] == w1 && v[2] == w2 && (n == 3 || v[3] == w3);
    if r {
        assert(v@ =~= word);
    }
    r
}

/// Whether a file, given by its name, is an audio file that can be played, judged by its
/// extension (mp3, wav, ogg, flac or m4a, in any ASCII case).
pub fn is_supported_file_type(file_name: &str) -> (r: bool)
    ensures
        r == is_supported_file_name(file_name@),
{
    let v = chars_of(file_name);
    if v.len() == 2 && v[0] == '.' && v[1] == '.' {
        assert(v@ =~= seq!['.', '.']);
        return false;
    }
    assert(v@ != seq!['.', '.']);
    match last_dot_exec(&v) {
        None => false,
        Some(i) => {
            if i == 0 {
                false
            } else {
                proof {
                    lemma_last_dot_in_range(v@);
                }
                let e = ascii_lowercase_exec(&v, i + 1, v.len());
                let ghost ext = ascii_lowercase(v@.subrange(i + 1, v@.len() as int));
                let ghost w0 = seq!['m', 'p', '3'];
                let ghost w1 = seq!['w', 'a', 'v'];
                let ghost w2 = seq!['o', 'g', 'g'];
                let ghost w3 = seq!['f', 'l', 'a', 'c'];
                let ghost w4 = seq!['m', '4', 'a'];
                let b0 = chars_equal(&e, Ghost(w0), 'm', 'p', '3', ' ', 3);
                let b1 = chars_equal(&e, Ghost(w1), 'w', 'a', 'v', ' ', 3);
                let b2 = chars_equal(&e, Ghost(w2), 'o', 'g', 'g', ' ', 3);
                let b3 = chars_equal(&e, Ghost(w3), 'f', 'l', 'a', 'c', 4);
                let b4 = chars_equal(&e, Ghost(w4), 'm', '4', 'a', ' ', 3);
                let r = b0 || b1 || b2 || b3 || b4;
                proof {
                    let l = supported_extensions();
                    if l.contains(ext) {
                        let k = choose|k: int| 0 <= k < l.len() && l[k] == ext;
                        assert(k == 0 || k == 1 || k == 2 || k == 3 || k == 4);
                    }
                    if r {
                        assert(l[0] == seq!['m', 'p', '3']);
                        assert(l[1] == seq!['w', 'a', 'v']);
                        assert(l[2] == seq!['o', 'g', 'g']);
                        assert(l[3] == seq!['f', 'l', 'a', 'c']);
                        assert(l[4] == seq!['m', '4', 'a']);
                    }
                }
                r
            }
        },
    }
}

/// The last dot lies inside the name.
proof fn lemma_last_dot_in_range(name: Seq<char>)
    ensures
        last_dot(name) matches Some(i) ==> 0 <= i < name.len(),
    decreases name.len(),
{
    if name.len() > 0 && name.last() != '.' {
        lemma_last_dot_in_range(name.drop_last());
    }
}

/// The name of a channel file starts with the channel number written with two digits at
/// least (zero padded), as `format!("{:0>2}", n)` writes it.
pub open spec fn channel_file_prefix_spec(n: nat) -> Seq<char> {
    pad_left(decimal(n), 2, '0')
}

/// The start of the name of the file of a channel: the channel number with two digits at least.
pub fn channel_file_prefix(channel_number: usize) -> (r: String)
    ensures
        r@ == channel_file_prefix_spec(channel_number as nat),
{
    let digits = u64_to_string(channel_number as u64);
    let mut r = String::new();
    append_padded_left(&mut r, digits.as_str(), 2, '0');
    assert(r@ =~= channel_file_prefix_spec(channel_number as nat));
    r
}

/// Whether a file in the stations folder is the file of the given channel.
pub fn is_channel_file_for(file_name: &str, channel_number: usize) -> (r: bool)
    ensures
        r == starts_with(file_name@, channel_file_prefix_spec(channel_number as nat)),
{
    let prefix = channel_file_prefix(channel_number);
    str_starts_with(file_name, prefix.as_str())
}

/// The device is a local memory stick or a Samba share.
pub open spec fn is_mountable_device(m: MediaDetails) -> bool {
    starts_with(m.device@, "/dev/sd"@) || starts_with(m.device@, "//"@) || m.disk_identifier is Some
}

/// The device is a CD drive.
pub open spec fn is_cd_device(m: MediaDetails) -> bool {
    starts_with(m.device@, "/dev/sr"@) || starts_with(m.device@, "/dev/cdrom"@)
}

/// What a parsed channel file calls for.
#[derive(Debug)]
pub enum ChannelFileKind {
    /// The channel plays the CD in the drive named by these details.
    Cd(MediaDetails),
    /// The channel data, completed and ready to be used.
    Ready(ChannelFileDataDecoded),
}

/// Completes the data parsed from a channel file: works out the type of media, ends the
/// list of URLs with the end-of-playlist ding when one is configured (then the last track is
/// a ding), and marks the data as initialised. A channel on a CD drive is handed back to be
/// read from the drive.
pub fn interpret_channel_file(
    decoded: ChannelFileDataDecoded,
    filename_sound_at_end_of_playlist: &Option<String>,
) -> (r: ChannelFileKind)
    ensures
        (decoded.media_details matches Some(m) && !is_mountable_device(m) && is_cd_device(m))
            <==> r is Cd,
        r matches ChannelFileKind::Cd(m) ==> decoded.media_details == Some(m),
        r matches ChannelFileKind::Ready(d) ==> {
            &&& d.source_type == match decoded.media_details {
                None => SourceType::UrlList,
                Some(m) => if is_mountable_device(m) {
                    SourceType::Usb
                } else {
                    decoded.source_type
                },
            }
            &&& d.last_track_is_a_ding == filename_sound_at_end_of_playlist is Some
            &&& views_of(d.station_url@) == with_optional_ding(
                views_of(decoded.station_url@),
                *filename_sound_at_end_of_playlist,
            )
            &&& d.data_is_initialised
            &&& d.organisation == decoded.organisation
            &&& d.pause_before_playing_ms == decoded.pause_before_playing_ms
            &&& d.random_tracks_wanted == decoded.random_tracks_wanted
            &&& d.media_details == decoded.media_details
        },
{
    let mut decoded = decoded;
    match &decoded.media_details {
        Some(media_details) => {
            let sd = str_starts_with(media_details.device.as_str(), "/dev/sd");
            let samba = str_starts_with(media_details.device.as_str(), "//");
            if sd || samba || media_details.disk_identifier.is_some() {
                decoded.source_type = SourceType::Usb;
            } else {
                let sr = str_starts_with(media_details.device.as_str(), "/dev/sr");
                let cdrom = str_starts_with(media_details.device.as_str(), "/dev/cdrom");
                if sr || cdrom {
                    return ChannelFileKind::Cd(media_details.duplicate());
                }
            }
        },
        None => {
            decoded.source_type = SourceType::UrlList;
        },
    }
    decoded.last_track_is_a_ding = push_ding(&mut decoded.station_url, filename_sound_at_end_of_playlist);
    decoded.data_is_initialised = true;
    ChannelFileKind::Ready(decoded)
}

/// The URL of a local file.
pub open spec fn file_url(path: Seq<char>) -> Seq<char> {
    "file://"@ + path
}

/// The URL of a local file.
pub fn file_url_exec(path: &str) -> (r: String)
    ensures
        r@ == file_url(path@),
{
    let mut r = String::from_str("file://");
    r.append(path);
    r
}

/// The URLs of the audio tracks `first..=last` of a CD.
pub open spec fn cd_track_urls(first: u8, last: u8) -> Seq<Seq<char>> {
    if last < first {
        Seq::empty()
    } else {
        Seq::new((last - first + 1) as nat, |k: int| "cdda://"@ + decimal((first + k) as nat))
    }
}

/// The tracks of a list, followed by the end-of-playlist ding when one is configured and
/// the list is not empty.
pub open spec fn with_ding(tracks: Seq<Seq<char>>, ding: Option<String>) -> Seq<Seq<char>> {
    match ding {
        Some(d) => if tracks.len() > 0 {
            tracks.push(file_url(d@))
        } else {
            tracks
        },
        None => tracks,
    }
}

/// The copy of the CD drive's details kept with the CD channel: the device and mount folder,
/// marked as mounted.
pub open spec fn cd_media_details(m: MediaDetails) -> MediaDetails {
    MediaDetails {
        device: m.device,
        disk_identifier: None,
        authentication_data: None,
        version: None,
        mount_folder: m.mount_folder,
        is_mounted: true,
    }
}

/// The channel data of an audio CD whose tracks are numbered `first..=last`: one `cdda://`
/// URL per track, followed by the end-of-playlist ding if one is configured and there is
/// at least one track.
pub fn cd_channel_data(
    media_details: &MediaDetails,
    first_cd_track: u8,
    last_cd_track: u8,
    filename_sound_at_end_of_playlist: &Option<String>,
) -> (r: ChannelFileDataDecoded)
    ensures
        r.organisation@ == "CD"@,
        views_of(r.station_url@) == with_ding(
            cd_track_urls(first_cd_track, last_cd_track),
            *filename_sound_at_end_of_playlist,
        ),
        r.source_type == SourceType::Cd,
        r.last_track_is_a_ding == (filename_sound_at_end_of_playlist is Some && first_cd_track
            <= last_cd_track),
        r.pause_before_playing_ms is None,
        !r.random_tracks_wanted,
        r.media_details == Some(cd_media_details(*media_details)),
        !r.data_is_initialised,
{
    let mut station_url: Vec<String> = Vec::new();
    let count: u16 = if first_cd_track <= last_cd_track {
        (last_cd_track - first_cd_track) as u16 + 1
    } else {
        0
    };
    let ghost urls = cd_track_urls(first_cd_track, last_cd_track);
    assert(urls.len() == count);
    let mut k: u16 = 0;
    while k < count
        invariant
            k <= count,
            urls == cd_track_urls(first_cd_track, last_cd_track),
            urls.len() == count,
            count > 0 ==> first_cd_track <= last_cd_track,
            views_of(station_url@) == urls.subrange(0, k as int),
        decreases count - k,
    {
        let mut url = String::from_str("cdda://");
        append_u64(&mut url, first_cd_track as u64 + k as u64);
        let ghost prev = station_url@;
        let ghost uv = url@;
        assert(uv == "cdda://"@ + decimal((first_cd_track + k) as nat));
        station_url.push(url);
        assert(urls[k as int] == uv);
        assert(views_of(station_url@) =~= views_of(prev).push(uv));
        assert(views_of(station_url@) =~= urls.subrange(0, k + 1));
        k = k + 1;
    }
    assert(views_of(station_url@) =~= urls);
    let mut last_track_is_a_ding = false;
    if let Some(filename) = filename_sound_at_end_of_playlist {
        if station_url.len() > 0 {
            station_url.push(file_url_exec(filename.as_str()));
            last_track_is_a_ding = true;
        }
    }
    assert(views_of(station_url@) =~= with_ding(
        cd_track_urls(first_cd_track, last_cd_track),
        *filename_sound_at_end_of_playlist,
    ));
    ChannelFileDataDecoded {
        organisation: String::from_str("CD"),
        station_url,
        source_type: SourceType::Cd,
        last_track_is_a_ding,
        pause_before_playing_ms: None,
        random_tracks_wanted: false,
        media_details: Some(MediaDetails {
            device: media_details.device.clone(),
            disk_identifier: None,
            authentication_data: None,
            version: None,
            mount_folder: media_details.mount_folder.clone(),
            is_mounted: true,
        }),
        data_is_initialised: false,
    }
}

/// What `Substring::substring` returns: the characters from `start` to `end`, each cut to
/// the length of `s`; nothing when `end <= start`.
pub open spec fn substring_spec(s: Seq<char>, start: int, end: int) -> Seq<char> {
    if end <= start {
        Seq::empty()
    } else {
        let a = if start < s.len() { start } else { s.len() as int };
        let b = if end < s.len() { end } else { s.len() as int };
        s.subrange(a, b)
    }
}

/// Calls `substring::Substring::substring`. Claimed: it returns the characters of `s` from
/// index `start` to index `end` (counted in chars), each index cut to the length of `s`,
/// and an empty string when `end <= start`, as its source shows.
#[verifier::external_body]
pub(crate) fn substring_of<'a>(s: &'a str, start: usize, end: usize) -> (r: &'a str)
    ensures
        r@ == substring_spec(s@, start as int, end as int),
{
    s.substring(start, end)
}

/// Calls `rand::random_range(0..=last)`. Claimed: the result lies in `0..=last`; nothing
/// else, as it is random.
#[verifier::external_body]
fn random_index_up_to(last: usize) -> (r: usize)
    ensures
        r <= last,
{
    rand::random_range(0..=last)
}

/// Calls `SliceRandom::shuffle` with `rand::rng()`. Claimed: the list afterwards holds the
/// same strings, each as often as before; their order is random.
#[verifier::external_body]
fn shuffle_strings(v: &mut Vec<String>)
    ensures
        final(v)@.to_multiset() == old(v)@.to_multiset(),
{
    let mut rng = rand::rng();
    v.shuffle(&mut rng);
}

/// Picks at random one of the albums found on the mounted media.
pub fn choose_album(list_of_audio_album_images: &Vec<String>) -> (r: Result<usize, ChannelErrorEvents>)
    ensures
        list_of_audio_album_images@.len() == 0 <==> r is Err,
        r matches Err(e) ==> e is NoFilesInArray,
        r matches Ok(i) ==> i < list_of_audio_album_images@.len(),
{
    if list_of_audio_album_images.len() == 0 {
        return Err(ChannelErrorEvents::NoFilesInArray);
    }
    Ok(random_index_up_to(list_of_audio_album_images.len() - 1))
}

/// The file URLs of a list of paths.
pub open spec fn file_urls(paths: Seq<String>) -> Seq<Seq<char>> {
    paths.map_values(|p: String| file_url(p@))
}

/// The file URLs of `paths`, in the same order.
fn file_urls_exec(paths: &Vec<String>) -> (r: Vec<String>)
    ensures
        views_of(r@) == file_urls(paths@),
{
    let mut r: Vec<String> = Vec::new();
    let mut i: usize = 0;
    while i < paths.len()
        invariant
            i <= paths@.len(),
            views_of(r@) == file_urls(paths@.subrange(0, i as int)),
        decreases paths@.len() - i,
    {
        let url = file_url_exec(paths[i].as_str());
        let ghost prev = r@;
        let ghost uv = url@;
        r.push(url);
        assert(views_of(r@) =~= views_of(prev).push(uv));
        assert(file_urls(paths@.subrange(0, i + 1)) =~= file_urls(paths@.subrange(0, i as int)).push(uv));
        i = i + 1;
    }
    assert(paths@.subrange(0, i as int) =~= paths@);
    r
}

/// Appends the end-of-playlist ding, if one is configured, to a list of track URLs; says
/// whether it did.
fn push_ding(tracks: &mut Vec<String>, filename_sound_at_end_of_playlist: &Option<String>) -> (r: bool)
    ensures
        r == filename_sound_at_end_of_playlist is Some,
        views_of(final(tracks)@) == match *filename_sound_at_end_of_playlist {
            Some(d) => views_of(old(tracks)@).push(file_url(d@)),
            None => views_of(old(tracks)@),
        },
{
    match filename_sound_at_end_of_playlist {
        Some(filename) => {
            let url = file_url_exec(filename.as_str());
            let ghost uv = url@;
            tracks.push(url);
            assert(views_of(final(tracks)@) =~= views_of(old(tracks)@).push(uv));
            true
        },
        None => false,
    }
}

/// The list of tracks of an album, followed by the end-of-playlist ding if one is configured.
pub open spec fn with_optional_ding(tracks: Seq<Seq<char>>, ding: Option<String>) -> Seq<Seq<char>> {
    match ding {
        Some(d) => tracks.push(file_url(d@)),
        None => tracks,
    }
}

/// The channel data for an album chosen on mounted media, which is played as a URL list:
/// its name is the album's path less the mount folder and the slash after it, its tracks are
/// the audio files found in it, followed by the end-of-playlist ding if one is configured.
pub fn album_channel_data(
    chosen_album: &str,
    mount_folder: &str,
    audio_files: &Vec<String>,
    filename_sound_at_end_of_playlist: &Option<String>,
    channel_file_data_decoded: &ChannelFileDataDecoded,
) -> (r: ChannelFileDataDecoded)
    requires
        mount_folder.len() < usize::MAX,
    ensures
        r.organisation@ == substring_spec(
            chosen_album@,
            mount_folder.len() + 1int,
            chosen_album.len() as int,
        ),
        views_of(r.station_url@) == with_optional_ding(
            file_urls(audio_files@),
            *filename_sound_at_end_of_playlist,
        ),
        r.source_type == SourceType::UrlList,
        !r.data_is_initialised,
        r.last_track_is_a_ding == filename_sound_at_end_of_playlist is Some,
        r.random_tracks_wanted == channel_file_data_decoded.random_tracks_wanted,
        r.pause_before_playing_ms == channel_file_data_decoded.pause_before_playing_ms,
        r.media_details == channel_file_data_decoded.media_details,
{
    let mut list_of_wanted_tracks = file_urls_exec(audio_files);
    let last_track_is_a_ding = push_ding(&mut list_of_wanted_tracks, filename_sound_at_end_of_playlist);
    let organisation = substring_of(chosen_album, mount_folder.len() + 1, chosen_album.len());
    ChannelFileDataDecoded {
        organisation: String::from_str(organisation),
        station_url: list_of_wanted_tracks,
        source_type: SourceType::UrlList,
        data_is_initialised: false,
        last_track_is_a_ding,
        random_tracks_wanted: channel_file_data_decoded.random_tracks_wanted,
        pause_before_playing_ms: channel_file_data_decoded.pause_before_playing_ms,
        media_details: duplicate_option_media_details(&channel_file_data_decoded.media_details),
    }
}

/// The channel data for random tracks taken from all the albums on mounted media, which is
/// played as a URL list: the file URLs of the tracks found, in a random order, followed by
/// the end-of-playlist ding if one is configured.
pub fn set_up_playlist_random_albums(
    tracks_found: &Vec<String>,
    filename_sound_at_end_of_playlist_as_option: &Option<String>,
    channel_data_for_wanted_channel: &ChannelFileDataDecoded,
) -> (r: ChannelFileDataDecoded)
    ensures
        r.station_url@.len() == tracks_found@.len() + if filename_sound_at_end_of_playlist_as_option is Some {
            1int
        } else {
            0int
        },
        views_of(r.station_url@.subrange(0, tracks_found@.len() as int)).to_multiset()
            == file_urls(tracks_found@).to_multiset(),
        filename_sound_at_end_of_playlist_as_option matches Some(d) ==> r.station_url@.last()@
            == file_url(d@),
        r.organisation == channel_data_for_wanted_channel.organisation,
        r.source_type == SourceType::UrlList,
        r.last_track_is_a_ding == filename_sound_at_end_of_playlist_as_option is Some,
        r.media_details == channel_data_for_wanted_channel.media_details,
        r.random_tracks_wanted == channel_data_for_wanted_channel.random_tracks_wanted,
        r.pause_before_playing_ms == channel_data_for_wanted_channel.pause_before_playing_ms,
        !r.data_is_initialised,
{
    let mut track_list = file_urls_exec(tracks_found);
    let ghost before = track_list@;
    shuffle_strings(&mut track_list);
    proof {
        let after = track_list@;
        before.to_multiset_ensures();
        after.to_multiset_ensures();
        assert(after.len() == before.len());
        lemma_multiset_map(before, after, |s: String| s@);
    }
    let ghost shuffled = track_list@;
    assert(views_of(before).len() == before.len());
    assert(shuffled.len() == tracks_found@.len());
    let last_track_is_a_ding = push_ding(&mut track_list, filename_sound_at_end_of_playlist_as_option);
    assert(views_of(track_list@).len() == track_list@.len());
    proof {
        match filename_sound_at_end_of_playlist_as_option {
            Some(d) => {
                assert(track_list@.len() == shuffled.len() + 1);
                assert(views_of(track_list@)[shuffled.len() as int] == file_url(d@));
                assert forall|k: int| 0 <= k < shuffled.len() implies track_list@[k]@ == shuffled[k]@ by {
                    assert(views_of(track_list@)[k] == views_of(shuffled)[k]);
                }
            },
            None => {},
        }
    }
    assert(views_of(track_list@.subrange(0, tracks_found@.len() as int)) =~= views_of(shuffled));
    ChannelFileDataDecoded {
        organisation: channel_data_for_wanted_channel.organisation.clone(),
        source_type: SourceType::UrlList,
        last_track_is_a_ding,
        media_details: duplicate_option_media_details(&channel_data_for_wanted_channel.media_details),
        random_tracks_wanted: channel_data_for_wanted_channel.random_tracks_wanted,
        pause_before_playing_ms: channel_data_for_wanted_channel.pause_before_playing_ms,
        station_url: track_list,
        data_is_initialised: false,
    }
}

/// Two sequences that hold the same elements as often still do after the same map.
pub proof fn lemma_multiset_map<A, B>(a: Seq<A>, b: Seq<A>, f: spec_fn(A) -> B)
    requires
        a.to_multiset() == b.to_multiset(),
    ensures
        a.map_values(f).to_multiset() == b.map_values(f).to_multiset(),
    decreases a.len(),
{
    broadcast use vstd::seq_lib::group_to_multiset_ensures;

    a.to_multiset_ensures();
    b.to_multiset_ensures();
    if a.len() == 0 {
        assert(b.len() == 0);
        assert(a.map_values(f) =~= Seq::<B>::empty());
        assert(b.map_values(f) =~= Seq::<B>::empty());
    } else {
        let x = a.last();
        let a1 = a.drop_last();
        assert(a =~= a1.push(x));
        assert(a.contains(x)) by {
            assert(a[a.len() - 1] == x);
        }
        assert(b.to_multiset().count(x) > 0);
        assert(b.contains(x));
        let i = choose|i: int| 0 <= i < b.len() && b[i] == x;
        let b1 = b.remove(i);
        assert(b1.to_multiset() =~= b.to_multiset().remove(x));
        assert(a1.to_multiset() =~= a.to_multiset().remove(x));
        lemma_multiset_map(a1, b1, f);
        let ma = a.map_values(f);
        let mb = b.map_values(f);
        assert(ma =~= a1.map_values(f).push(f(x)));
        assert(mb.remove(i) =~= b1.map_values(f));
        assert(mb[i] == f(x));
        assert(mb.remove(i).to_multiset() =~= mb.to_multiset().remove(f(x)));
        assert(mb.contains(f(x)));
        assert(mb.to_multiset() =~= mb.to_multiset().remove(f(x)).insert(f(x)));
    }
}


/// What `eject` returns once its steps have run: an error when no CD drive is present, when
/// the first drive could not be opened (the error's text, quoted), or when it could not be
/// ejected (the error as it was written); nothing otherwise. The first failure counts.
pub fn eject_outcome(num_cd_drives: usize, open_error: Option<String>, eject_error: Option<String>) -> (r: Result<(), String>)
    ensures
        num_cd_drives == 0 ==> (r matches Err(e) && e@ == "No drives present"@),
        num_cd_drives > 0 && open_error is Some ==> (r matches Err(e) && e@
            == "Got the following error when trying to open the CD drive "@ + crate::text::debug_quoted(
            open_error->0@,
        )),
        num_cd_drives > 0 && open_error is None && eject_error is Some ==> (r matches Err(e) && e@
            == "got the following error when ejecting the CD"@ + eject_error->0@),
        num_cd_drives > 0 && open_error is None && eject_error is None ==> r is Ok,
{
    if num_cd_drives == 0 {
        return Err(String::from_str("No drives present"));
    }
    if let Some(error_message) = &open_error {
        let mut e = String::from_str("Got the following error when trying to open the CD drive ");
        let quoted = crate::text::debug_quote(error_message.as_str());
        e.append(quoted.as_str());
        return Err(e);
    }
    if let Some(error_message) = &eject_error {
        let mut e = String::from_str("got the following error when ejecting the CD");
        e.append(error_message.as_str());
        return Err(e);
    }
    Ok(())
}

/// The CD drive's status that `play_cd` accepts: a disc is in the drive (`CDS_DISC_OK`).
pub open spec fn cd_drive_ready(drive_status: i32) -> bool {
    drive_status == 4
}

/// The disc types that `play_cd` accepts: audio (`CDS_AUDIO`) or mixed (`CDS_MIXED`).
pub open spec fn cd_disc_playable(disc_status: i32) -> bool {
    disc_status == 100 || disc_status == 105
}

/// What `play_cd` makes of the answers of the CD drive: the drive's status, the disc's
/// status and the result of reading the table of contents, giving the first and last
/// track. The first answer that is not the expected one gives the error.
pub fn cd_status_check(drive_status: i32, disc_status: i32, toc_result: i32) -> (r: Result<(), ChannelErrorEvents>)
    ensures
        !cd_drive_ready(drive_status) ==> (r matches Err(ChannelErrorEvents::FailedtoGetCDdriveOrDiskStatus(n))
            && n == drive_status),
        cd_drive_ready(drive_status) && !cd_disc_playable(disc_status) ==> (r matches Err(
            ChannelErrorEvents::FailedtoGetCDdriveOrDiskStatus(n),
        ) && n == disc_status),
        cd_drive_ready(drive_status) && cd_disc_playable(disc_status) && toc_result != 0 ==> (r matches Err(
            ChannelErrorEvents::CouldNotGetNumberOfCDTracks(n),
        ) && n == toc_result),
        cd_drive_ready(drive_status) && cd_disc_playable(disc_status) && toc_result == 0 ==> r is Ok,
{
    if drive_status != 4 {
        return Err(ChannelErrorEvents::FailedtoGetCDdriveOrDiskStatus(drive_status));
    }
    if disc_status != 100 && disc_status != 105 {
        return Err(ChannelErrorEvents::FailedtoGetCDdriveOrDiskStatus(disc_status));
    }
    if toc_result != 0 {
        return Err(ChannelErrorEvents::CouldNotGetNumberOfCDTracks(toc_result));
    }
    Ok(())
}


/// Whether an album folder holds an audio file, judged by the files' names.
pub fn has_supported_file(file_names: &Vec<String>) -> (r: bool)
    ensures
        r == exists|k: int| 0 <= k < file_names@.len() && is_supported_file_name(#[trigger] file_names@[k]@),
{
    let mut k: usize = 0;
    while k < file_names.len()
        invariant
            k <= file_names@.len(),
            forall|j: int| 0 <= j < k ==> !is_supported_file_name(#[trigger] file_names@[j]@),
        decreases file_names@.len() - k,
    {
        if is_supported_file_type(file_names[k].as_str()) {
            return true;
        }
        k = k + 1;
    }
    false
}

/// An entry of a folder: its path, its name, and whether it is a plain file.
#[derive(Debug)]
pub struct FolderEntry {
    pub path: String,
    pub file_name: String,
    pub is_file: bool,
}

/// An entry is an audio track: a plain file whose name has a supported extension.
pub open spec fn is_audio_track(e: FolderEntry) -> bool {
    e.is_file && is_supported_file_name(e.file_name@)
}

/// The paths of the audio tracks among the entries of a folder, in order.
pub open spec fn audio_track_paths(entries: Seq<FolderEntry>) -> Seq<Seq<char>>
    decreases entries.len(),
{
    if entries.len() == 0 {
        Seq::empty()
    } else {
        let init = audio_track_paths(entries.drop_last());
        if is_audio_track(entries.last()) {
            init.push(entries.last().path@)
        } else {
            init
        }
    }
}

/// The paths of the audio tracks among the entries of a folder (see `audio_track_paths`).
pub fn audio_file_paths(entries: &Vec<FolderEntry>) -> (r: Vec<String>)
    ensures
        views_of(r@) == audio_track_paths(entries@),
{
    let mut r: Vec<String> = Vec::new();
    let mut i: usize = 0;
    while i < entries.len()
        invariant
            i <= entries@.len(),
            views_of(r@) == audio_track_paths(entries@.take(i as int)),
        decreases entries@.len() - i,
    {
        assert(entries@.take(i + 1).drop_last() =~= entries@.take(i as int));
        assert(entries@.take(i + 1).last() == entries@[i as int]);
        let e = &entries[i];
        if e.is_file && is_supported_file_type(e.file_name.as_str()) {
            let ghost before = r@;
            r.push(e.path.clone());
            assert(views_of(r@) =~= views_of(before).push(e.path@));
        }
        i = i + 1;
    }
    assert(entries@.take(i as int) =~= entries@);
    r
}

} // verus!
