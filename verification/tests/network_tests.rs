use rradio::network::{
    NetworkData, NetworkDataNew, interpret_wifi_connect_output, network_data_from_nmcli,
    network_data_from_terse_nmcli, record_network_search_attempt, wifi_file_paths,
};
use rradio::player_status::PlayerStatus;
use rradio::read_config::Config;

const TERSE: &str = "GENERAL.DEVICE:wlan0\nGENERAL.TYPE:wifi\nGENERAL.HWADDR:B8:27:EB:00:00:00\nGENERAL.MTU:1500\nGENERAL.STATE:100 (connected)\nGENERAL.CONNECTION:HomeNet\nGENERAL.CON-PATH:/org/freedesktop\nIP4.ADDRESS[1]:192.168.1.23/24\nIP4.GATEWAY:192.168.1.1\nIP4.ROUTE[1]:x\n";

#[test]
fn terse_nmcli_output_gives_the_network_data() {
    let d = network_data_from_terse_nmcli(TERSE).unwrap();
    assert_eq!(d.ssid, "HomeNet");
    assert_eq!(d.local_ip_address, "192.168.1.23");
    assert_eq!(d.gateway_ip_address, "192.168.1.1");
    assert!(d.is_valid);
}

#[test]
fn terse_nmcli_output_without_an_address_is_an_error() {
    let text = TERSE.replace("192.168.1.23/24", "none");
    assert_eq!(network_data_from_terse_nmcli(&text).err(), Some("failed to parse IP address".to_string()));
}

#[test]
fn terse_nmcli_output_that_is_too_short_is_an_error() {
    assert_eq!(
        network_data_from_terse_nmcli("GENERAL.DEVICE:wlan0\nGENERAL.STATE:30 (disconnected)\n").err(),
        Some("nmcli printed too few lines".to_string())
    );
    assert_eq!(network_data_from_terse_nmcli("").err(), Some("nmcli printed too few lines".to_string()));
}

#[test]
fn nmcli_output_of_a_connected_device() {
    let text = "GENERAL.DEVICE:                         wlan0\nGENERAL.TYPE:                           wifi\nGENERAL.HWADDR:                         B8\nGENERAL.MTU:                            1500\nGENERAL.STATE:                          100 (connected)\nGENERAL.CONNECTION:                     MyWifi\nGENERAL.CON-PATH:                       /org\nIP4.ADDRESS[1]:                         192.168.1.23/24\nIP4.GATEWAY:                            192.168.1.1\n";
    let d: NetworkData = network_data_from_nmcli(text).unwrap();
    assert_eq!(d.ssid, "MyWifi");
    assert_eq!(d.local_ip_address, "192.168.1.23");
    assert_eq!(d.gateway_ip_address, "192.168.1.1");
}

#[test]
fn nmcli_output_of_a_disconnected_device_is_an_error() {
    assert_eq!(
        network_data_from_nmcli("GENERAL.STATE: 30 (disconnected)").err(),
        Some("not connected; got GENERAL.STATE: 30 (disconnected)".to_string())
    );
}

#[test]
fn the_answer_to_a_wifi_connection() {
    assert_eq!(
        interpret_wifi_connect_output("Device 'wlan0' successfully activated with 'x'.\n", ""),
        Ok(())
    );
    assert_eq!(
        interpret_wifi_connect_output("Error: no network\n", ""),
        Err("Tried to set Wi-FI SSID & password but failed".to_string())
    );
    assert_eq!(
        interpret_wifi_connect_output("", "Secrets were required\n"),
        Err("When trying to set the SSID & Wi-Fi password got error Secrets were required".to_string())
    );
    assert_eq!(
        interpret_wifi_connect_output("", ""),
        Err("Failed to set the SSID & password for an unknown reason".to_string())
    );
}

#[test]
fn the_wifi_password_file_paths() {
    assert_eq!(
        wifi_file_paths("/home/pi/"),
        ("/home/pi/wifi_folder".to_string(), "/home/pi/wifi_folder//pass.toml".to_string())
    );
}

#[test]
fn new_network_data_is_not_valid() {
    let d = NetworkDataNew::new();
    assert_eq!(d.ssid, "8.8.8.8");
    assert_eq!(d.local_ip_address, "8.8.8.8");
    assert_eq!(d.gateway_ip_address, "8.8.8.8");
    assert!(!d.is_valid);
    assert_eq!(NetworkData::new().ssid, "not known");
}

#[test]
fn each_search_attempt_is_shown() {
    let config = Config::default();
    let mut status = PlayerStatus::new(&config);
    record_network_search_attempt(&mut status, 3);
    assert_eq!(status.all_4lines.text.bytes, b"Looking for IP address. Attempt number 3".to_vec());
}
