//! The reports the player gives: the list of valid channels, sorted by file name, the
//! channels its status report covers, and the example formats of channel files.
use vstd::prelude::*;
use crate::get_channel_details::{SourceType, substring_of, substring_spec};
use crate::lcd::RunningStatus;
use crate::player_status::{NUMBER_OF_CHANNEL_SLOTS, PlayerStatus};
use crate::text::{byte_len, byte_length, chars_of, ends_with, str_ends_with, views_of};

verus! {

/// What `str::to_lowercase` returns for a text.
pub uninterp spec fn lowercased(s: Seq<char>) -> Seq<char>;

/// Calls `str::to_lowercase`. Claimed: its result is a function of the text alone, named
/// `lowercased`; the Unicode case mapping itself is not stated.
#[verifier::external_body]
fn to_lowercase(s: &str) -> (r: String)
    ensures
        r@ == lowercased(s@),
{
    s.to_lowercase()
}

/// A decimal digit.
pub open spec fn is_digit(c: char) -> bool {
    '0' <= c && c <= '9'
}

/// Whether `str::parse::<i8>` accepts a text of at most two characters: a digit, two digits,
/// or a sign and a digit.
pub open spec fn short_text_parses_as_i8(t: Seq<char>) -> bool {
    if t.len() == 1 {
        is_digit(t[0])
    } else if t.len() == 2 {
        is_digit(t[1]) && (is_digit(t[0]) || t[0] == '+' || t[0] == '-')
    } else {
        false
    }
}

/// A file in the stations folder is a channel file when its name, in lower case, ends with
/// `.toml`, it is longer than one byte, and its first two characters read as an `i8`.
pub open spec fn is_channel_file_name_spec(name: Seq<char>) -> bool {
    &&& ends_with(lowercased(name), ".toml"@)
    &&& byte_len(name) > 1
    &&& short_text_parses_as_i8(substring_spec(name, 0, 2))
}

/// Whether a file in the stations folder is a channel file (see `is_channel_file_name_spec`).
pub fn is_channel_file_name(name: &str) -> (r: bool)
    ensures
        r == is_channel_file_name_spec(name@),
{
    let lower = to_lowercase(name);
    if !str_ends_with(lower.as_str(), ".toml") {
        return false;
    }
    if byte_length(name) <= 1 {
        return false;
    }
    let start = chars_of(substring_of(name, 0, 2));
    if start.len() == 1 {
        '0' <= start[0] && start[0] <= '9'
    } else if start.len() == 2 {
        '0' <= start[1] && start[1] <= '9' && (('0' <= start[0] && start[0] <= '9') || start[0] == '+'
            || start[0] == '-')
    } else {
        false
    }
}

/// `a` comes before or with `b` in the order of `String`: compared character by character
/// by code point, a prefix first.
pub open spec fn lex_le(a: Seq<char>, b: Seq<char>) -> bool
    decreases a.len(),
{
    if a.len() == 0 {
        true
    } else if b.len() == 0 {
        false
    } else if (a[0] as u32) < (b[0] as u32) {
        true
    } else if (a[0] as u32) > (b[0] as u32) {
        false
    } else {
        lex_le(a.drop_first(), b.drop_first())
    }
}

/// `order` lists each index of `names` once, the names then coming in the order of
/// `String`.
pub open spec fn is_sorting_order(order: Seq<int>, names: Seq<Seq<char>>) -> bool {
    &&& order.len() == names.len()
    &&& forall|i: int| 0 <= i < order.len() ==> 0 <= #[trigger] order[i] < names.len()
    &&& forall|i: int, j: int| 0 <= i < j < order.len() ==> order[i] != order[j]
    &&& forall|i: int, j: int|
        0 <= i < j < order.len() ==> lex_le(#[trigger] names[order[i]], #[trigger] names[order[j]])
}

/// Calls `permutation::sort` on the names and applies the permutation to `0..n`, giving the
/// indices of the names in sorted order. Claimed: as the crate's source shows, each index
/// comes once, and the names they pick come in the order of `String` (which compares the
/// UTF-8 bytes, the same as comparing the characters by code point).
#[verifier::external_body]
fn sorted_order(names: &Vec<String>, identity: &Vec<usize>) -> (r: Vec<usize>)
    requires
        identity@.len() == names@.len(),
        forall|i: int| 0 <= i < identity@.len() ==> #[trigger] identity@[i] == i,
    ensures
        is_sorting_order(r@.map_values(|k: usize| k as int), views_of(names@)),
{
    permutation::sort(names).apply_slice(identity)
}

/// What was read from a channel file: its organisation, or the text of its TOML error.
#[derive(Debug)]
pub struct ChannelFileEntry {
    pub file_name: String,
    pub outcome: Result<String, String>,
}

/// The line of the list for a channel file: its name and its organisation, or its error.
pub open spec fn entry_line(e: ChannelFileEntry) -> Seq<char> {
    match e.outcome {
        Ok(organisation) => e.file_name@ + " \t"@ + organisation@ + "\n"@,
        Err(error) => e.file_name@ + " \t"@ + error@ + "\n"@,
    }
}

/// The lines of the entries, one after the other.
pub open spec fn lines_of_entries(entries: Seq<ChannelFileEntry>) -> Seq<char>
    decreases entries.len(),
{
    if entries.len() == 0 {
        Seq::empty()
    } else {
        lines_of_entries(entries.drop_last()) + entry_line(entries.last())
    }
}

/// The entries that could not be parsed, in the order read.
pub open spec fn failed_entries(entries: Seq<ChannelFileEntry>) -> Seq<ChannelFileEntry> {
    entries.filter(|e: ChannelFileEntry| e.outcome is Err)
}

/// The entries that were parsed, in the order read.
pub open spec fn parsed_entries(entries: Seq<ChannelFileEntry>) -> Seq<ChannelFileEntry> {
    entries.filter(|e: ChannelFileEntry| e.outcome is Ok)
}

/// The file names of the entries that were parsed, in the order read.
pub open spec fn parsed_file_names(entries: Seq<ChannelFileEntry>) -> Seq<Seq<char>> {
    parsed_entries(entries).map_values(|e: ChannelFileEntry| e.file_name@)
}

/// The report of the valid channels: a title, the channel files that could not be parsed,
/// with their errors, in the order read, then the others sorted by file name, each with its
/// organisation.
pub fn channel_list_report(entries: &Vec<ChannelFileEntry>) -> (r: String)
    ensures
        exists|order: Seq<int>| {
            let parsed = parsed_entries(entries@);
            &&& #[trigger] is_sorting_order(order, parsed_file_names(entries@))
            &&& r@ == "\nList of valid channels\n"@ + lines_of_entries(failed_entries(entries@))
                + lines_of_entries(order.map_values(|k: int| parsed[k]))
        },
{
    let mut report = String::from_str("\nList of valid channels\n");
    let mut names: Vec<String> = Vec::new();
    let mut organisations: Vec<String> = Vec::new();
    let ghost mut parsed_so_far: Seq<ChannelFileEntry> = Seq::empty();
    let mut i: usize = 0;
    while i < entries.len()
        invariant
            i <= entries@.len(),
            report@ == "\nList of valid channels\n"@ + lines_of_entries(failed_entries(entries@.take(i as int))),
            parsed_so_far == parsed_entries(entries@.take(i as int)),
            names@.len() == parsed_so_far.len(),
            organisations@.len() == parsed_so_far.len(),
            forall|k: int|
                0 <= k < parsed_so_far.len() ==> #[trigger] names@[k]@ == parsed_so_far[k].file_name@
                    && parsed_so_far[k].outcome == Ok::<String, String>(organisations@[k]),
        decreases entries@.len() - i,
    {
        let entry = &entries[i];
        let ghost prefix = entries@.take(i as int);
        assert(entries@.take(i + 1) =~= prefix.push(*entry));
        proof {
            prefix.lemma_filter_push(*entry, |e: ChannelFileEntry| e.outcome is Err);
            prefix.lemma_filter_push(*entry, |e: ChannelFileEntry| e.outcome is Ok);
        }
        match &entry.outcome {
            Ok(organisation) => {
                let ghost old_names = names@;
                let ghost old_organisations = organisations@;
                let ghost old_parsed = parsed_so_far;
                names.push(entry.file_name.clone());
                organisations.push(organisation.clone());
                proof {
                    parsed_so_far = parsed_so_far.push(*entry);
                    assert forall|k: int| 0 <= k < parsed_so_far.len() implies #[trigger] names@[k]@
                        == parsed_so_far[k].file_name@ && parsed_so_far[k].outcome == Ok::<
                        String,
                        String,
                    >(organisations@[k]) by {
                        if k < old_parsed.len() {
                            assert(names@[k] == old_names[k]);
                            assert(organisations@[k] == old_organisations[k]);
                            assert(parsed_so_far[k] == old_parsed[k]);
                        } else {
                            assert(parsed_so_far[k] == *entry);
                            assert(entry.outcome == Ok::<String, String>(*organisation));
                        }
                    }
                }
            },
            Err(error) => {
                report.append(entry.file_name.as_str());
                report.append(" \t");
                report.append(error.as_str());
                report.append("\n");
                let ghost failed = failed_entries(prefix);
                assert(failed_entries(entries@.take(i + 1)) == failed.push(*entry));
                assert(failed.push(*entry).drop_last() =~= failed);
                assert(lines_of_entries(failed.push(*entry)) =~= lines_of_entries(failed) + entry_line(*entry));
                assert(forall|k: int|
                    0 <= k < parsed_so_far.len() ==> #[trigger] names@[k]@ == parsed_so_far[k].file_name@
                        && parsed_so_far[k].outcome == Ok::<String, String>(organisations@[k]));
            },
        }
        assert(forall|k: int|
            0 <= k < parsed_so_far.len() ==> #[trigger] names@[k]@ == parsed_so_far[k].file_name@
                && parsed_so_far[k].outcome == Ok::<String, String>(organisations@[k]));
        i = i + 1;
    }
    assert(entries@.take(i as int) =~= entries@);
    let ghost parsed = parsed_so_far;
    let ghost name_views = parsed.map_values(|e: ChannelFileEntry| e.file_name@);
    assert(views_of(names@) =~= name_views);
    let mut identity: Vec<usize> = Vec::new();
    let mut k: usize = 0;
    while k < names.len()
        invariant
            k <= names@.len(),
            identity@.len() == k,
            forall|j: int| 0 <= j < k ==> #[trigger] identity@[j] == j,
        decreases names@.len() - k,
    {
        identity.push(k);
        k = k + 1;
    }
    let order = sorted_order(&names, &identity);
    let ghost order_int = order@.map_values(|x: usize| x as int);
    let ghost sorted_part = Seq::<char>::empty();
    let mut j: usize = 0;
    let ghost before_sorted = report@;
    while j < order.len()
        invariant
            j <= order@.len(),
            order_int == order@.map_values(|x: usize| x as int),
            is_sorting_order(order_int, name_views),
            names@.len() == parsed.len(),
            organisations@.len() == parsed.len(),
            name_views == parsed.map_values(|e: ChannelFileEntry| e.file_name@),
            forall|k: int|
                0 <= k < parsed.len() ==> #[trigger] names@[k]@ == parsed[k].file_name@
                    && parsed[k].outcome == Ok::<String, String>(organisations@[k]),
            report@ == before_sorted + lines_of_entries(order_int.take(j as int).map_values(|k: int| parsed[k])),
        decreases order@.len() - j,
    {
        let index = order[j];
        assert(order_int[j as int] == index as int);
        assert(0 <= index < names@.len());
        report.append(names[index].as_str());
        report.append(" \t");
        report.append(organisations[index].as_str());
        report.append("\n");
        let ghost picked = order_int.take(j + 1).map_values(|k: int| parsed[k]);
        assert(picked.drop_last() =~= order_int.take(j as int).map_values(|k: int| parsed[k]));
        assert(picked.last() == parsed[index as int]);
        j = j + 1;
    }
    assert(order_int.take(j as int) =~= order_int);
    assert(parsed == parsed_entries(entries@));
    assert(is_sorting_order(order_int, parsed_file_names(entries@)));
    report
}

/// Whether the status report covers a channel: the current one, any with tracks, and at
/// start-up any whose type of source is known.
pub open spec fn channel_is_reported_spec(status: PlayerStatus, channel: int) -> bool {
    let data = status.position_and_duration@[channel];
    ||| channel == status.channel_number
    ||| data.channel_data.station_url@.len() > 0
    ||| (status.running_status == RunningStatus::Startingup && data.channel_data.source_type
        != SourceType::UnknownSource)
}

/// Whether the status report covers a channel (see `channel_is_reported_spec`).
pub fn channel_is_reported(status_of_rradio: &PlayerStatus, channel: usize) -> (r: bool)
    requires
        status_of_rradio.wf(),
        channel < NUMBER_OF_CHANNEL_SLOTS,
    ensures
        r == channel_is_reported_spec(*status_of_rradio, channel as int),
{
    let data = &status_of_rradio.position_and_duration[channel];
    channel == status_of_rradio.channel_number || data.channel_data.station_url.len() > 0 || (
    status_of_rradio.running_status == RunningStatus::Startingup && data.channel_data.source_type
        != SourceType::UnknownSource)
}


/// The example channel files that the web page shows.
pub open spec fn channel_formats_text() -> Seq<char> {
    "Example file format for a CD drive\n[media_details]\ndevice = \"/dev/sr0\"\n\nor\n\n[media_details]\ndevice = \"/dev/cdrom\"\n\nExample file format for an internet stream\n\norganisation = \"France Inter\"\npause_before_playing_ms = 5000         # optional line; the program will wait this number of ms before playing to fill its buffer\n# this is useful for stations that are not very regular at providing input\nstation_url = [\n\"http://direct.franceinter.fr/live/franceinter-hifi.aac\"  # multiple entries can be added\n]\n\nExample file format for an playlist file on a Samba share\n\norganisation = \"put the name of the organisation here\"\nstation_url = [\n\"name of artist goes here/name of disk goes here\",\n\"name of artist2 goes here/name of disk2 goes here\",\n\"name of artist3 goes here/name of disk3 goes here\",\n]\nrandom_tracks_wanted = true #optional entry if you want random tracks\n          # do not specify both this entry & station_url\n[media_details]\ndisk_identifier = \"folder or file name.txt\"  # optional entry; as this is specified, the program will search for a Samba share that contains this file or folder\nversion = \"2.0\" #optional entry to specify the Samba version to use\nmount_folder = \"/home/pi/remote_mount_folder\"\n[media_details.authentication_data]     #omit this entry if there is no authentication data\nusername = \"****\"   # replace the **** with the username\npassword = \"****\"   # replace the **** with the password\n\nexample playlist on local USB stick\n\norganisation = \"shanties on local USB\"\nstation_url = [\n\"artist1/album name1\",\n\"artist2/album name2\",\n]\n[media_details]\nchannel_number = 90\ndevice = \"/dev/sda1\"\nmount_folder = \"/home/pi/local_mount_folder\"\n"@
}

/// The example channel files that the web page shows: a CD drive, an internet stream, a
/// playlist on a Samba share and one on a local USB stick.
pub fn display_list_of_valid_channel_formats() -> (r: String)
    ensures
        r@ == channel_formats_text(),
{
    String::from_str("Example file format for a CD drive\n[media_details]\ndevice = \"/dev/sr0\"\n\nor\n\n[media_details]\ndevice = \"/dev/cdrom\"\n\nExample file format for an internet stream\n\norganisation = \"France Inter\"\npause_before_playing_ms = 5000         # optional line; the program will wait this number of ms before playing to fill its buffer\n# this is useful for stations that are not very regular at providing input\nstation_url = [\n\"http://direct.franceinter.fr/live/franceinter-hifi.aac\"  # multiple entries can be added\n]\n\nExample file format for an playlist file on a Samba share\n\norganisation = \"put the name of the organisation here\"\nstation_url = [\n\"name of artist goes here/name of disk goes here\",\n\"name of artist2 goes here/name of disk2 goes here\",\n\"name of artist3 goes here/name of disk3 goes here\",\n]\nrandom_tracks_wanted = true #optional entry if you want random tracks\n          # do not specify both this entry & station_url\n[media_details]\ndisk_identifier = \"folder or file name.txt\"  # optional entry; as this is specified, the program will search for a Samba share that contains this file or folder\nversion = \"2.0\" #optional entry to specify the Samba version to use\nmount_folder = \"/home/pi/remote_mount_folder\"\n[media_details.authentication_data]     #omit this entry if there is no authentication data\nusername = \"****\"   # replace the **** with the username\npassword = \"****\"   # replace the **** with the password\n\nexample playlist on local USB stick\n\norganisation = \"shanties on local USB\"\nstation_url = [\n\"artist1/album name1\",\n\"artist2/album name2\",\n]\n[media_details]\nchannel_number = 90\ndevice = \"/dev/sda1\"\nmount_folder = \"/home/pi/local_mount_folder\"\n")
}

} // verus!
