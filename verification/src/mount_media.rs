//! Working out how to mount and unmount media, and what a mount's outcome means.
use vstd::prelude::*;
use crate::get_channel_details::{ChannelErrorEvents, ChannelFileDataDecoded, SourceType};
use crate::read_config::MediaDetails;
use crate::text::{append_chars, append_i64, chars_of, signed_decimal, starts_with, str_eq, str_starts_with};

verus! {

/// The mount options for the device's authentication data and Samba version.
pub open spec fn credentials_text(m: MediaDetails) -> Seq<char> {
    let base = match m.authentication_data {
        Some(a) => "user="@ + a.username@ + ",pass="@ + a.password@,
        None => Seq::empty(),
    };
    match m.version {
        Some(v) => base + ",vers="@ + v@,
        None => base,
    }
}

/// What must be done to mount a device.
#[derive(Debug)]
pub enum MountStep {
    /// The device is mounted already, in this folder.
    AlreadyMounted(String),
    /// The Samba shares of the server must be searched for the one holding the disk identifier.
    SearchShares,
    /// Mount the device with this file system type and these options.
    Mount { fstype: String, data: String },
}

/// Works out how to mount a device, as `mount_media` does before it calls the operating
/// system: nothing if it is mounted already; a search of the shares for a Samba server named
/// with a disk identifier; otherwise a mount as `cifs` (Samba, device starting with `//`) or
/// `vfat` (a local memory stick).
pub fn plan_mount(media_details: &MediaDetails) -> (r: MountStep)
    ensures
        media_details.is_mounted <==> r is AlreadyMounted,
        r matches MountStep::AlreadyMounted(f) ==> f@ == media_details.mount_folder@,
        (!media_details.is_mounted && starts_with(media_details.device@, "//"@)
            && media_details.disk_identifier is Some) <==> r is SearchShares,
        r matches MountStep::Mount { fstype, data } ==> {
            if starts_with(media_details.device@, "//"@) {
                &&& fstype@ == "cifs"@
                &&& data@ == credentials_text(*media_details) + ",iocharset=utf8"@
            } else {
                &&& fstype@ == "vfat"@
                &&& data@ == credentials_text(*media_details) + ",iocharset=utf8,utf8"@
            }
        },
{
    if media_details.is_mounted {
        return MountStep::AlreadyMounted(media_details.mount_folder.clone());
    }
    let mut data_string = String::new();
    if let Some(authentication_data) = &media_details.authentication_data {
        data_string.append("user=");
        data_string.append(authentication_data.username.as_str());
        data_string.append(",pass=");
        data_string.append(authentication_data.password.as_str());
    }
    if let Some(version) = &media_details.version {
        data_string.append(",vers=");
        data_string.append(version.as_str());
    }
    assert(data_string@ =~= credentials_text(*media_details));
    if str_starts_with(media_details.device.as_str(), "//") {
        if media_details.disk_identifier.is_some() {
            return MountStep::SearchShares;
        }
        data_string.append(",iocharset=utf8");
        MountStep::Mount { fstype: String::from_str("cifs"), data: data_string }
    } else {
        data_string.append(",iocharset=utf8,utf8");
        MountStep::Mount { fstype: String::from_str("vfat"), data: data_string }
    }
}

/// How the operating system refused a mount.
#[derive(Debug)]
pub struct MountFailure {
    /// The operating system's error number, if there is one.
    pub raw_os_error: Option<i32>,
    /// The text of the error's kind, used where there is no error number.
    pub kind: String,
}

/// The operating system's error number for "no such file or directory".
pub open spec fn os_error_no_such_file_or_directory() -> i32 {
    2
}

/// The operating system's error number for "no such device or address".
pub open spec fn os_error_no_such_device_or_address() -> i32 {
    6
}

/// The operating system's error number for "device or resource busy".
pub open spec fn os_resource_busy() -> i32 {
    16
}

/// Records the outcome of mounting a device and gives the mount folder, or the error that
/// describes the failure. A busy device counts as mounted.
pub fn record_mount_result(media_details: &mut MediaDetails, result: Result<(), MountFailure>) -> (r: Result<String, ChannelErrorEvents>)
    ensures
        final(media_details).device == old(media_details).device,
        final(media_details).disk_identifier == old(media_details).disk_identifier,
        final(media_details).authentication_data == old(media_details).authentication_data,
        final(media_details).version == old(media_details).version,
        final(media_details).mount_folder == old(media_details).mount_folder,
        final(media_details).is_mounted == r is Ok,
        r matches Ok(f) ==> f@ == old(media_details).mount_folder@,
        r is Ok <==> (result is Ok || (result matches Err(e) && e.raw_os_error == Some(
            os_resource_busy(),
        ))),
        result matches Err(e) ==> match e.raw_os_error {
            Some(n) => if n == os_error_no_such_file_or_directory() {
                r matches Err(ChannelErrorEvents::NoUSBDevice)
            } else if n == os_error_no_such_device_or_address() {
                r matches Err(ChannelErrorEvents::NoSuchDeviceOrDirectory(d)) && d@ == old(
                    media_details,
                ).device@
            } else if n == os_resource_busy() {
                r is Ok
            } else {
                r matches Err(ChannelErrorEvents::UsbMountMountError(m)) && m@
                    == "Got Operating System error "@ + signed_decimal(n as int) + " "@
            },
            None => r matches Err(ChannelErrorEvents::UsbMountMountError(m)) && m@ == e.kind@,
        },
{
    match result {
        Ok(()) => {
            media_details.is_mounted = true;
            Ok(media_details.mount_folder.clone())
        },
        Err(mount_error) => {
            media_details.is_mounted = false;
            match mount_error.raw_os_error {
                Some(n) => {
                    if n == 2 {
                        Err(ChannelErrorEvents::NoUSBDevice)
                    } else if n == 6 {
                        Err(ChannelErrorEvents::NoSuchDeviceOrDirectory(media_details.device.clone()))
                    } else if n == 16 {
                        media_details.is_mounted = true;
                        Ok(media_details.mount_folder.clone())
                    } else {
                        let mut m = String::from_str("Got Operating System error ");
                        append_i64(&mut m, n as i64);
                        m.append(" ");
                        Err(ChannelErrorEvents::UsbMountMountError(m))
                    }
                },
                None => Err(ChannelErrorEvents::UsbMountMountError(mount_error.kind)),
            }
        },
    }
}

/// Whether the channel's media must be mounted before it is played: `Ok(false)` when the
/// channel names no media, an error when the media is not of a type that can be mounted.
pub fn media_to_mount(channel_data: &ChannelFileDataDecoded) -> (r: Result<bool, ChannelErrorEvents>)
    ensures
        channel_data.media_details is None ==> r == Ok::<bool, ChannelErrorEvents>(false),
        channel_data.media_details is Some && channel_data.source_type != SourceType::Usb ==> (r
            matches Err(ChannelErrorEvents::MediaNotMountabletype(t)) && t
            == channel_data.source_type),
        channel_data.media_details is Some && channel_data.source_type == SourceType::Usb ==> r
            == Ok::<bool, ChannelErrorEvents>(true),
{
    if channel_data.media_details.is_none() {
        return Ok(false);
    }
    if channel_data.source_type != SourceType::Usb {
        return Err(ChannelErrorEvents::MediaNotMountabletype(channel_data.source_type));
    }
    Ok(true)
}

/// The media must be unmounted: it is mounted and is not a CD drive.
pub open spec fn needs_unmount_spec(channel_data: ChannelFileDataDecoded) -> bool {
    match channel_data.media_details {
        Some(m) => m.is_mounted && !starts_with(m.device@, "/dev/sr"@) && m.device@ != "/dev/cdrom"@,
        None => false,
    }
}

/// Whether the channel's media must be unmounted (CDs are never unmounted).
pub fn needs_unmount(channel_data: &ChannelFileDataDecoded) -> (r: bool)
    ensures
        r == needs_unmount_spec(*channel_data),
{
    match &channel_data.media_details {
        Some(media_details) => {
            media_details.is_mounted && !str_starts_with(media_details.device.as_str(), "/dev/sr")
                && !str_eq(media_details.device.as_str(), "/dev/cdrom")
        },
        None => false,
    }
}

/// Records that the channel's media has been unmounted.
pub fn record_unmounted(channel_data: &mut ChannelFileDataDecoded)
    ensures
        match final(channel_data).media_details {
            Some(m) => !m.is_mounted,
            None => true,
        },
        old(channel_data).media_details is Some <==> final(channel_data).media_details is Some,
        final(channel_data).station_url@ == old(channel_data).station_url@,
        final(channel_data).source_type == old(channel_data).source_type,
        final(channel_data).organisation == old(channel_data).organisation,
{
    if let Some(media_details) = &mut channel_data.media_details {
        media_details.is_mounted = false;
    }
}

/// The message given when unmounting the device mounted on `mount_folder` failed.
pub fn unmount_failure_message(mount_folder: &str) -> (r: String)
    ensures
        r@ == "Failed to unmount the device mounted on "@ + mount_folder@,
{
    let mut r = String::from_str("Failed to unmount the device mounted on ");
    r.append(mount_folder);
    r
}


/// The arguments of the `smbclient` command that lists the shares of a Samba server: with
/// the user name and password when there are some, anonymously otherwise.
pub open spec fn smbclient_args_spec(m: MediaDetails) -> Seq<Seq<char>> {
    match m.authentication_data {
        Some(a) => seq!["-L"@, m.device@, "-g"@, "-U"@, a.username@ + "%"@ + a.password@],
        None => seq!["-N"@, "-L"@, m.device@, "-g"@],
    }
}

/// The arguments of the `smbclient` command that lists the shares of a Samba server.
pub fn smbclient_args(media_details: &MediaDetails) -> (r: Vec<String>)
    ensures
        crate::text::views_of(r@) == smbclient_args_spec(*media_details),
{
    let mut r: Vec<String> = Vec::new();
    match &media_details.authentication_data {
        Some(auth_data) => {
            r.push(String::from_str("-L"));
            r.push(media_details.device.clone());
            r.push(String::from_str("-g"));
            r.push(String::from_str("-U"));
            let mut user = auth_data.username.clone();
            user.append("%");
            user.append(auth_data.password.as_str());
            r.push(user);
        },
        None => {
            r.push(String::from_str("-N"));
            r.push(String::from_str("-L"));
            r.push(media_details.device.clone());
            r.push(String::from_str("-g"));
        },
    }
    assert(crate::text::views_of(r@) =~= smbclient_args_spec(*media_details));
    r
}

/// A line of the share list that names a disk share can be cut as the code cuts it: after
/// `Disk` and one more ASCII character, up to its last character, which is ASCII too (the
/// byte slice `[5..len - 1]` then falls on character boundaries and is not reversed).
pub open spec fn disk_line_can_be_cut(line: Seq<char>) -> bool {
    &&& line.len() >= 6
    &&& (line[4] as u32) < 0x80
    &&& (line.last() as u32) < 0x80
}

/// The share that a line of `smbclient -g -L` output names, if it starts with `Disk`: the
/// line's characters from the sixth up to the last, excluded.
pub open spec fn share_of_line(line: Seq<char>) -> Option<Seq<char>> {
    if starts_with(line, "Disk"@) {
        Some(line.subrange(5, line.len() - 1))
    } else {
        None
    }
}

/// The media details with which a share named by a line of the share list is tried: those
/// of the server, with a `/` and the share's name appended to the device (`//host` becomes
/// `//host/share`) and no disk identifier.
pub fn samba_share_candidate(media_details: &MediaDetails, line: &str) -> (r: Option<MediaDetails>)
    requires
        starts_with(line@, "Disk"@) ==> disk_line_can_be_cut(line@),
    ensures
        share_of_line(line@) is None <==> r is None,
        r matches Some(c) ==> {
            &&& c.device@ == media_details.device@ + "/"@ + share_of_line(line@)->0
            &&& c.disk_identifier is None
            &&& c.authentication_data == media_details.authentication_data
            &&& c.version == media_details.version
            &&& c.mount_folder == media_details.mount_folder
            &&& c.is_mounted == media_details.is_mounted
        },
{
    if !str_starts_with(line, "Disk") {
        return None;
    }
    let chars = chars_of(line);
    let mut device = media_details.device.clone();
    device.append("/");
    append_chars(&mut device, &chars, 5, chars.len() - 1);
    let mut candidate = media_details.duplicate();
    candidate.device = device;
    candidate.disk_identifier = None;
    Some(candidate)
}

/// Whether one of the names of a share's top folder is the disk identifier looked for.
pub fn holds_disk_identifier(names: &Vec<String>, disk_identifier: &str) -> (r: bool)
    ensures
        r == exists|i: int| 0 <= i < names@.len() && #[trigger] names@[i]@ == disk_identifier@,
{
    let mut i: usize = 0;
    while i < names.len()
        invariant
            i <= names@.len(),
            forall|j: int| 0 <= j < i ==> #[trigger] names@[j]@ != disk_identifier@,
        decreases names@.len() - i,
    {
        if str_eq(names[i].as_str(), disk_identifier) {
            return true;
        }
        i = i + 1;
    }
    false
}

} // verus!
