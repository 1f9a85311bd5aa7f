use rradio::ping::{PingWhere, begin_ping, parse_ping_output, ping_due, ping_gateway_next, record_ping_output, see_if_there_is_a_ping_response};
use rradio::get_channel_details::SourceType;
use rradio::player_status::PlayerStatus;
use rradio::read_config::Config;

const OUTPUT: &str = "PING 192.168.1.1 (192.168.1.1) 56(84) bytes of data.\n64 bytes from 192.168.1.1: icmp_seq=1 ttl=64 time=2.31 ms\n\n--- 192.168.1.1 ping statistics ---\n1 packets transmitted, 1 received, 0% packet loss, time 0ms\nrtt min/avg/max/mdev = 2.310/2.310/2.310/0.000 ms\n";

#[test]
fn the_ping_output_gives_destination_and_time() {
    assert_eq!(parse_ping_output(OUTPUT, "192.168.1.1"), (PingWhere::Local, "2.310".to_string()));
    assert_eq!(parse_ping_output(OUTPUT, "10.0.0.1"), (PingWhere::Remote, "2.310".to_string()));
    assert_eq!(parse_ping_output("garbage", "10.0.0.1"), (PingWhere::Remote, String::new()));
}

#[test]
fn pings_alternate_and_then_stay_local() {
    assert!(!ping_gateway_next(0, 15));
    assert!(ping_gateway_next(1, 15));
    assert!(!ping_gateway_next(2, 15));
    assert!(ping_gateway_next(16, 15));
    assert!(ping_due(10_000, 6_000));
    assert!(!ping_due(10_000, 7_000));
}

#[test]
fn a_ping_goes_to_the_channel_then_to_the_router() {
    let config = Config::default();
    let mut status = PlayerStatus::new(&config);
    status.network_data.gateway_ip_address = "192.168.1.1".to_string();
    status.channel_number = 2;
    status.position_and_duration[2].address_to_ping = "radio.example.org".to_string();
    assert_eq!(begin_ping(&mut status, &config, 1000), "radio.example.org");
    assert!(!status.ping_data.can_send_ping);
    assert_eq!(begin_ping(&mut status, &config, 5000), "192.168.1.1");
    assert_eq!(status.ping_data.number_of_pings_to_this_channel, 2);
    assert_eq!(status.ping_data.last_ping_time_of_day, 5000);
}

#[test]
fn a_new_ping_is_allowed_after_three_seconds_on_a_stream() {
    let config = Config::default();
    let mut status = PlayerStatus::new(&config);
    status.channel_number = 2;
    status.running_status = rradio::lcd::RunningStatus::RunningNormally;
    status.position_and_duration[2].channel_data.source_type = SourceType::UrlList;
    status.ping_data.last_ping_time_of_day = 1000;
    see_if_there_is_a_ping_response(&mut status, 3000);
    assert!(!status.ping_data.can_send_ping);
    see_if_there_is_a_ping_response(&mut status, 4001);
    assert!(status.ping_data.can_send_ping);
    assert_eq!(record_ping_output(&mut status, OUTPUT), Ok("2.310".to_string()));
    assert_eq!(status.ping_data.destination, PingWhere::Remote);
}

#[test]
fn the_ping_time_needs_an_answer_first() {
    let config = Config::default();
    let mut status = PlayerStatus::new(&config);
    assert_eq!(
        record_ping_output(&mut status, OUTPUT),
        Err("Cannot get ping time if a valid ping has not been returned".to_string())
    );
}

#[test]
fn the_ping_destinations_as_text() {
    assert_eq!(PingWhere::Local.to_long_string(), "Local ping ");
    assert_eq!(PingWhere::Remote.to_short_string(), "RemPing");
    assert_eq!(PingWhere::Nothing.to_single_character(), "N");
}
