use rradio::get_channel_details::{ChannelErrorEvents, ChannelFileDataDecoded, SourceType};
use rradio::mount_media::{
    MountFailure, MountStep, holds_disk_identifier, media_to_mount, needs_unmount, plan_mount, record_mount_result,
    record_unmounted, samba_share_candidate, smbclient_args, unmount_failure_message,
};
use rradio::read_config::{AuthenticationData, MediaDetails};

fn media(device: &str) -> MediaDetails {
    MediaDetails {
        device: device.to_string(),
        disk_identifier: None,
        authentication_data: None,
        version: None,
        mount_folder: "/home/pi/mount".to_string(),
        is_mounted: false,
    }
}

#[test]
fn a_memory_stick_is_mounted_as_vfat() {
    match plan_mount(&media("/dev/sda1")) {
        MountStep::Mount { fstype, data } => {
            assert_eq!(fstype, "vfat");
            assert_eq!(data, ",iocharset=utf8,utf8");
        }
        _ => panic!("a mount is due"),
    }
}

#[test]
fn a_samba_share_is_mounted_as_cifs_with_its_credentials() {
    let mut m = media("//192.168.0.2/music");
    m.authentication_data = Some(AuthenticationData { username: "pi".to_string(), password: "pw".to_string() });
    m.version = Some("3.0".to_string());
    match plan_mount(&m) {
        MountStep::Mount { fstype, data } => {
            assert_eq!(fstype, "cifs");
            assert_eq!(data, "user=pi,pass=pw,vers=3.0,iocharset=utf8");
        }
        _ => panic!("a mount is due"),
    }
    m.disk_identifier = Some("Music".to_string());
    assert!(matches!(plan_mount(&m), MountStep::SearchShares));
    m.is_mounted = true;
    assert!(matches!(plan_mount(&m), MountStep::AlreadyMounted(f) if f == "/home/pi/mount"));
}

#[test]
fn mount_failures_are_named() {
    let mut m = media("/dev/sda1");
    assert_eq!(record_mount_result(&mut m, Ok(())).unwrap(), "/home/pi/mount");
    assert!(m.is_mounted);
    let busy = MountFailure { raw_os_error: Some(16), kind: String::new() };
    assert!(record_mount_result(&mut m, Err(busy)).is_ok());
    assert!(m.is_mounted);
    let missing = MountFailure { raw_os_error: Some(2), kind: String::new() };
    assert!(matches!(record_mount_result(&mut m, Err(missing)), Err(ChannelErrorEvents::NoUSBDevice)));
    assert!(!m.is_mounted);
    let no_device = MountFailure { raw_os_error: Some(6), kind: String::new() };
    assert!(matches!(record_mount_result(&mut m, Err(no_device)), Err(ChannelErrorEvents::NoSuchDeviceOrDirectory(d)) if d == "/dev/sda1"));
    let other = MountFailure { raw_os_error: Some(13), kind: String::new() };
    assert!(matches!(record_mount_result(&mut m, Err(other)), Err(ChannelErrorEvents::UsbMountMountError(e)) if e == "Got Operating System error 13 "));
    let no_number = MountFailure { raw_os_error: None, kind: "other error".to_string() };
    assert!(matches!(record_mount_result(&mut m, Err(no_number)), Err(ChannelErrorEvents::UsbMountMountError(e)) if e == "other error"));
}

#[test]
fn only_usb_media_is_mounted() {
    let mut data = ChannelFileDataDecoded::new();
    assert!(matches!(media_to_mount(&data), Ok(false)));
    data.media_details = Some(media("/dev/sda1"));
    data.source_type = SourceType::Cd;
    assert!(matches!(media_to_mount(&data), Err(ChannelErrorEvents::MediaNotMountabletype(SourceType::Cd))));
    data.source_type = SourceType::Usb;
    assert!(matches!(media_to_mount(&data), Ok(true)));
}

#[test]
fn mounted_media_other_than_cds_is_unmounted() {
    let mut data = ChannelFileDataDecoded::new();
    let mut m = media("/dev/sda1");
    m.is_mounted = true;
    data.media_details = Some(m);
    assert!(needs_unmount(&data));
    record_unmounted(&mut data);
    assert!(!needs_unmount(&data));
    let mut cd = media("/dev/sr0");
    cd.is_mounted = true;
    data.media_details = Some(cd);
    assert!(!needs_unmount(&data));
    assert_eq!(unmount_failure_message("/mnt"), "Failed to unmount the device mounted on /mnt");
}

#[test]
fn samba_shares_are_listed_with_smbclient() {
    let mut m = media("//192.168.0.2");
    assert_eq!(smbclient_args(&m), vec!["-N", "-L", "//192.168.0.2", "-g"]);
    m.authentication_data = Some(AuthenticationData { username: "pi".to_string(), password: "pw".to_string() });
    assert_eq!(smbclient_args(&m), vec!["-L", "//192.168.0.2", "-g", "-U", "pi%pw"]);
}

#[test]
fn each_disk_share_is_tried() {
    let mut m = media("//192.168.0.2");
    m.disk_identifier = Some("Music".to_string());
    let c = samba_share_candidate(&m, "Disk|volume1|").unwrap();
    assert_eq!(c.device, "//192.168.0.2/volume1");
    assert_eq!(c.disk_identifier, None);
    assert!(samba_share_candidate(&m, "IPC|IPC$|IPC Service").is_none());
    assert!(holds_disk_identifier(&vec!["Films".to_string(), "Music".to_string()], "Music"));
    assert!(!holds_disk_identifier(&vec!["Films".to_string()], "Music"));
}
