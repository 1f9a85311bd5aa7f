//! The network addresses of the player's Wi-Fi interface, read from what `nmcli` prints.
use vstd::prelude::*;
use vstd::utf8::encode_utf8;
use crate::get_channel_details::{substring_of, substring_spec};
use crate::lcd::{RunningStatus, updated_to_show};
use crate::player_status::PlayerStatus;
use crate::text::{
    append_u64, byte_len, byte_length, chars_of, contains, find, find_exec, lemma_find_from, matches_at, split_on, split_on_char,
    str_contains, string_from_chars, trim, trim_exec, views_of,
};

verus! {

/// if is_valid is true, contains the SSID, local & gateway IP addresses as strings.
#[derive(Debug)]
pub struct NetworkDataNew {
    pub ssid: String,
    pub local_ip_address: String,
    pub gateway_ip_address: String,
    pub is_valid: bool,
}

impl NetworkDataNew {
    /// initialises SSID, local & gateway IP addresses to "8.8.8.8" & sets is_valid false
    pub fn new() -> (r: Self)
        ensures
            r.ssid@ == "8.8.8.8"@,
            r.local_ip_address@ == "8.8.8.8"@,
            r.gateway_ip_address@ == "8.8.8.8"@,
            !r.is_valid,
    {
        NetworkDataNew {
            ssid: String::from_str("8.8.8.8"),
            local_ip_address: String::from_str("8.8.8.8"),
            gateway_ip_address: String::from_str("8.8.8.8"),
            is_valid: false,
        }
    }
}

impl Default for NetworkDataNew {
    /// The data before anything is known, as `new` gives.
    fn default() -> (r: Self)
        ensures
            r.ssid@ == "8.8.8.8"@,
            r.local_ip_address@ == "8.8.8.8"@,
            r.gateway_ip_address@ == "8.8.8.8"@,
            !r.is_valid,
    {
        NetworkDataNew::new()
    }
}

/// if is_valid is true, contains the SSID, local & gateway IP addresses as strings.
#[derive(Debug)]
pub struct NetworkData {
    pub ssid: String,
    pub local_ip_address: String,
    pub gateway_ip_address: String,
    pub is_valid: bool,
}

impl NetworkData {
    /// initialises SSID, local & gateway IP addresses to "not known" & sets is_valid false
    pub fn new() -> (r: Self)
        ensures
            r.ssid@ == "not known"@,
            r.local_ip_address@ == "not known"@,
            r.gateway_ip_address@ == "not known"@,
            !r.is_valid,
    {
        NetworkData {
            ssid: String::from_str("not known"),
            local_ip_address: String::from_str("not known"),
            gateway_ip_address: String::from_str("not known"),
            is_valid: false,
        }
    }
}


/// The lines of a text, as `split('\n')` gives them.
pub open spec fn lines_of(s: Seq<char>) -> Seq<Seq<char>> {
    split_on(s, '\n')
}

/// The byte index of the first `/` of a line, as `str::find` gives it, if there is one.
pub open spec fn slash_byte_index(line: Seq<char>) -> Option<nat> {
    match find(line, seq!['/']) {
        Some(i) => Some(byte_len(line.subrange(0, i))),
        None => None,
    }
}

/// The byte index of the first `/` of a line, if there is one.
fn find_slash_byte_index(line: &str) -> (r: Option<usize>)
    ensures
        r matches Some(b) ==> slash_byte_index(line@) == Some(b as nat),
        r is None ==> slash_byte_index(line@) is None,
{
    let chars = chars_of(line);
    let mut slash: Vec<char> = Vec::new();
    slash.push('/');
    assert(slash@ =~= seq!['/']);
    match find_exec(&chars, &slash) {
        Some(i) => {
            proof {
                lemma_find_from(chars@, slash@, 0);
                assert(matches_at(chars@, slash@, i as int));
            }
            let before = string_from_chars(&chars, 0, i);
            Some(byte_length(before.as_str()))
        },
        None => None,
    }
}

/// The network data that the terse output of `nmcli -t device show wlan0` holds: the SSID on
/// line 5 after `GENERAL.CONNECTION:`, the local address on line 7 between `IP4.ADDRESS[1]:`
/// and the `/`, and the gateway on line 8 after `IP4.GATEWAY:`. The offsets are counted in
/// characters and the ends in bytes, as the code does. Output with fewer than 9 lines, or
/// without a `/` on line 7, gives an error.
pub fn network_data_from_terse_nmcli(output: &str) -> (r: Result<NetworkDataNew, String>)
    ensures
        lines_of(output@).len() < 9 ==> (r matches Err(e) && e@ == "nmcli printed too few lines"@),
        lines_of(output@).len() >= 9 ==> ({
            let lines = lines_of(output@);
            match slash_byte_index(lines[7]) {
                None => r matches Err(e) && e@ == "failed to parse IP address"@,
                Some(slash) => r matches Ok(d) && {
                    &&& d.is_valid
                    &&& d.ssid@ == substring_spec(lines[5], 19, byte_len(lines[5]) as int)
                    &&& d.local_ip_address@ == substring_spec(lines[7], 15, slash as int)
                    &&& d.gateway_ip_address@ == substring_spec(lines[8], 12, byte_len(lines[8]) as int)
                },
            }
        }),
{
    let lines = split_on_char(output, '\n');
    if lines.len() < 9 {
        return Err(String::from_str("nmcli printed too few lines"));
    }
    assert(views_of(lines@)[5] == lines@[5]@);
    assert(views_of(lines@)[7] == lines@[7]@);
    assert(views_of(lines@)[8] == lines@[8]@);
    let ssid_line = lines[5].as_str();
    let ssid = substring_of(ssid_line, 19, byte_length(ssid_line));
    let address_line = lines[7].as_str();
    let local_ip_address = match find_slash_byte_index(address_line) {
        Some(pos) => substring_of(address_line, 15, pos),
        None => {
            return Err(String::from_str("failed to parse IP address"));
        },
    };
    let gateway_line = lines[8].as_str();
    let gateway_ip_address = substring_of(gateway_line, 12, byte_length(gateway_line));
    Ok(NetworkDataNew {
        ssid: String::from_str(ssid),
        local_ip_address: String::from_str(local_ip_address),
        gateway_ip_address: String::from_str(gateway_ip_address),
        is_valid: true,
    })
}

/// The text before the first `/`, or the whole text if there is none.
pub open spec fn before_slash(s: Seq<char>) -> Seq<char> {
    match find(s, seq!['/']) {
        Some(i) => s.subrange(0, i),
        None => s,
    }
}

/// The network data that the output of `nmcli device show wlan0` holds when the device is
/// connected (the output holds `100 (`): the SSID on line 5 after 20 characters, the local
/// address on line 7 after 15 characters and up to the `/`, and the gateway on line 8 after
/// 15 characters, each trimmed. Otherwise the error says that the device is not connected and
/// what `nmcli` printed.
pub fn network_data_from_nmcli(output: &str) -> (r: Result<NetworkData, String>)
    requires
        contains(output@, "100 ("@) ==> lines_of(output@).len() >= 9,
    ensures
        !contains(output@, "100 ("@) ==> (r matches Err(e) && e@ == "not connected; got "@ + output@),
        contains(output@, "100 ("@) ==> {
            let lines = lines_of(output@);
            r matches Ok(d) && {
                &&& d.is_valid
                &&& d.ssid@ == trim(substring_spec(lines[5], 20, byte_len(lines[5]) as int))
                &&& d.local_ip_address@ == before_slash(trim(substring_spec(lines[7], 15, byte_len(lines[7]) as int)))
                &&& d.gateway_ip_address@ == trim(substring_spec(lines[8], 15, byte_len(lines[8]) as int))
            }
        },
{
    if !str_contains(output, "100 (") {
        let mut e = String::from_str("not connected; got ");
        e.append(output);
        return Err(e);
    }
    let lines = split_on_char(output, '\n');
    assert(views_of(lines@)[5] == lines@[5]@);
    assert(views_of(lines@)[7] == lines@[7]@);
    assert(views_of(lines@)[8] == lines@[8]@);
    let ssid_line = lines[5].as_str();
    let ssid = trim_exec(substring_of(ssid_line, 20, byte_length(ssid_line)));
    let address_line = lines[7].as_str();
    let address = trim_exec(substring_of(address_line, 15, byte_length(address_line)));
    let chars = chars_of(address.as_str());
    let mut slash: Vec<char> = Vec::new();
    slash.push('/');
    assert(slash@ =~= seq!['/']);
    let local_ip_address = match find_exec(&chars, &slash) {
        Some(i) => {
            proof {
                lemma_find_from(chars@, slash@, 0);
                assert(matches_at(chars@, slash@, i as int));
            }
            string_from_chars(&chars, 0, i)
        },
        None => address,
    };
    let gateway_line = lines[8].as_str();
    let gateway_ip_address = trim_exec(substring_of(gateway_line, 15, byte_length(gateway_line)));
    Ok(NetworkData { ssid, local_ip_address, gateway_ip_address, is_valid: true })
}

/// Before the search for the network data: a long message is to be shown.
pub fn begin_network_search(status_of_rradio: &mut PlayerStatus)
    ensures
        final(status_of_rradio).running_status == RunningStatus::LongMessageOnAll4Lines,
        final(status_of_rradio).all_4lines == old(status_of_rradio).all_4lines,
        final(status_of_rradio).network_data == old(status_of_rradio).network_data,
{
    status_of_rradio.running_status = RunningStatus::LongMessageOnAll4Lines;
}

/// Shows which attempt at finding the network data is being made.
pub fn record_network_search_attempt(status_of_rradio: &mut PlayerStatus, count: u64)
    ensures
        updated_to_show(
            final(status_of_rradio).all_4lines,
            old(status_of_rradio).all_4lines,
            "Looking for IP address. Attempt number "@ + crate::text::decimal(count as nat),
        ),
        final(status_of_rradio).running_status == old(status_of_rradio).running_status,
        final(status_of_rradio).network_data == old(status_of_rradio).network_data,
{
    let mut text = String::from_str("Looking for IP address. Attempt number ");
    append_u64(&mut text, count);
    status_of_rradio.all_4lines.update_if_changed(text.as_str());
}

/// Shows the error of a failed attempt at finding the network data.
pub fn record_network_search_error(status_of_rradio: &mut PlayerStatus, error: &str, count: u64)
    ensures
        updated_to_show(
            final(status_of_rradio).all_4lines,
            old(status_of_rradio).all_4lines,
            "Got error "@ + error@ + "  on count "@ + crate::text::decimal(count as nat),
        ),
        final(status_of_rradio).running_status == old(status_of_rradio).running_status,
        final(status_of_rradio).network_data == old(status_of_rradio).network_data,
{
    let mut text = String::from_str("Got error ");
    text.append(error);
    text.append("  on count ");
    append_u64(&mut text, count);
    status_of_rradio.all_4lines.update_if_changed(text.as_str());
}

/// The network data was found: it is kept, the player is starting up and the long message
/// is cleared.
pub fn record_network_data(status_of_rradio: &mut PlayerStatus, network_data: NetworkDataNew)
    ensures
        final(status_of_rradio).network_data == network_data,
        final(status_of_rradio).running_status == RunningStatus::Startingup,
        updated_to_show(final(status_of_rradio).all_4lines, old(status_of_rradio).all_4lines, Seq::empty()),
        final(status_of_rradio).channel_number == old(status_of_rradio).channel_number,
        final(status_of_rradio).position_and_duration == old(status_of_rradio).position_and_duration,
{
    status_of_rradio.network_data = network_data;
    status_of_rradio.running_status = RunningStatus::Startingup;
    proof {
        reveal_strlit("");
    }
    status_of_rradio.all_4lines.update_if_changed("");
}


/// The text of a failed `nmcli device wifi connect` from its error output: the characters of
/// `stderr` up to one less than its length in bytes (for ASCII text, all but the last).
pub open spec fn connect_error_text(stderr: Seq<char>) -> Seq<char> {
    let n = byte_len(stderr) - 1;
    "When trying to set the SSID & Wi-Fi password got error "@ + if n < stderr.len() {
        stderr.take(n)
    } else {
        stderr
    }
}

/// What the output of `nmcli device wifi connect` says: the device is connected if its
/// standard output holds "successfully activated with "; otherwise the error that
/// `set_up_wifi_password` gives for it.
pub fn interpret_wifi_connect_output(stdout: &str, stderr: &str) -> (r: Result<(), String>)
    ensures
        stdout@.len() > 0 ==> (r is Ok <==> contains(stdout@, "successfully activated with "@)),
        stdout@.len() > 0 && !contains(stdout@, "successfully activated with "@) ==> (r matches Err(e)
            && e@ == "Tried to set Wi-FI SSID & password but failed"@),
        stdout@.len() == 0 && stderr@.len() > 0 ==> (r matches Err(e) && e@ == connect_error_text(stderr@)),
        stdout@.len() == 0 && stderr@.len() == 0 ==> (r matches Err(e) && e@
            == "Failed to set the SSID & password for an unknown reason"@),
{
    if !stdout.is_empty() {
        if str_contains(stdout, "successfully activated with ") {
            Ok(())
        } else {
            Err(String::from_str("Tried to set Wi-FI SSID & password but failed"))
        }
    } else if !stderr.is_empty() {
        let chars = chars_of(stderr);
        let bytes = byte_length(stderr);
        assert(bytes > 0) by {
            assert(encode_utf8(stderr@) =~= vstd::utf8::encode_scalar(stderr@[0] as u32) + encode_utf8(
                stderr@.drop_first(),
            ));
        }
        let n = bytes - 1;
        let mut e = String::from_str("When trying to set the SSID & Wi-Fi password got error ");
        let kept = if n < chars.len() {
            n
        } else {
            chars.len()
        };
        crate::text::append_chars(&mut e, &chars, 0, kept);
        assert(chars@.subrange(0, chars@.len() as int) =~= chars@);
        Err(e)
    } else {
        Err(String::from_str("Failed to set the SSID & password for an unknown reason"))
    }
}

/// The folder on which the memory stick holding the Wi-Fi password is mounted, and the
/// password file on it.
pub fn wifi_file_paths(startup_folder: &str) -> (r: (String, String))
    ensures
        r.0@ == startup_folder@ + "wifi_folder"@,
        r.1@ == startup_folder@ + "wifi_folder"@ + "//pass.toml"@,
{
    let mut folder = String::from_str(startup_folder);
    folder.append("wifi_folder");
    let mut passfile = folder.clone();
    passfile.append("//pass.toml");
    (folder, passfile)
}

/// Wi-Fi is connected and its network data found: it is kept, the player is starting up and
/// the long message is cleared.
pub fn record_wifi_connected(status_of_rradio: &mut PlayerStatus, network_data: NetworkDataNew)
    ensures
        final(status_of_rradio).network_data == network_data,
        final(status_of_rradio).running_status == RunningStatus::Startingup,
        final(status_of_rradio).all_4lines.text.bytes@.len() == 0,
        final(status_of_rradio).all_4lines.scroll_position == 0,
        final(status_of_rradio).all_4lines.num_lines == 4,
        final(status_of_rradio).channel_number == old(status_of_rradio).channel_number,
        final(status_of_rradio).position_and_duration == old(status_of_rradio).position_and_duration,
{
    status_of_rradio.network_data = network_data;
    status_of_rradio.running_status = RunningStatus::Startingup;
    proof {
        reveal_strlit("");
    }
    status_of_rradio.all_4lines = crate::lcd::ScrollData::new("", 4);
}

} // verus!
