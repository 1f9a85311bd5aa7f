use rradio::lcd::{
    LcdScreenEncodedText, LineNum, MuteState, ScrollData, TextBuffer, cpu_temperature_from_text, encode_for_lcd,
    mute_state_from_pin, throttled_from_output,
};
use rradio::read_config::Config;

#[test]
fn plain_ascii_reaches_the_screen_unchanged() {
    assert_eq!(encode_for_lcd("Radio 4"), b"Radio 4".to_vec());
}

#[test]
fn accented_letters_use_the_screen_codes() {
    assert_eq!(encode_for_lcd("é"), vec![5]);
    assert_eq!(encode_for_lcd("àü~"), vec![7, 0xF5, 0xF3]);
    assert_eq!(encode_for_lcd("a\nb"), vec![b'a', 0xCD, b'b']);
}

#[test]
fn other_letters_are_transliterated() {
    assert_eq!(encode_for_lcd("Æ"), b"AE".to_vec());
    assert_eq!(encode_for_lcd("ß"), b"ss".to_vec());
}

#[test]
fn debug_text_quotes_and_escapes() {
    let t = LcdScreenEncodedText { bytes: vec![b'a', b'"', 5, b'\\'] };
    assert_eq!(t.debug_text(), "\"a\\\"\\x05\\\\\"");
}

#[test]
fn a_short_text_never_scrolls() {
    let config = Config::default();
    let s = ScrollData::new("short", 1);
    assert_eq!(s.scroll_position_after(&config, 20, 1_000_000), None);
}

#[test]
fn a_long_text_scrolls_to_a_space_after_the_period() {
    let config = Config::default();
    let s = ScrollData::new("abcdefgh ijklmnopqrstuvwxyz0123456789", 1);
    assert_eq!(s.scroll_position_after(&config, 20, 100), None);
    assert_eq!(s.scroll_position_after(&config, 20, 1600), Some(8));
}

#[test]
fn a_scroll_starts_again_before_too_little_is_left() {
    let config = Config::default();
    let mut s = ScrollData::new("abcdefghijklmnopqrstu", 1);
    s.scroll_position = 6;
    assert_eq!(s.scroll_position_after(&config, 20, 2000), Some(0));
}

#[test]
fn updating_with_the_same_text_changes_nothing() {
    let mut s = ScrollData::new("abcdefghijklmnopqrstuvwxyz0123456789", 1);
    s.scroll_position = 12;
    s.update_if_changed("abcdefghijklmnopqrstuvwxyz0123456789");
    assert_eq!(s.scroll_position, 12);
    s.update_if_changed("new");
    assert_eq!(s.scroll_position, 0);
    assert_eq!(s.text.bytes, b"new".to_vec());
    assert_eq!(s.bytes(), b"new".to_vec());
}

#[test]
fn the_bytes_start_at_the_scroll_position() {
    let mut s = ScrollData::new("0123456789", 1);
    s.scroll_position = 4;
    assert_eq!(s.bytes(), b"456789".to_vec());
    s.scroll_position = 40;
    assert!(s.bytes().is_empty());
}

#[test]
fn text_is_written_into_its_lines_only() {
    let mut t = TextBuffer::new();
    assert_eq!(t.buffer, [b' '; 80]);
    t.write_text_to_lines(b"hello", LineNum::Line2, 1);
    assert_eq!(&t.buffer[20..25], b"hello");
    assert_eq!(&t.buffer[0..20], &[b' '; 20]);
    assert_eq!(&t.buffer[25..80], &[b' '; 55]);
}

#[test]
fn text_stops_at_the_end_of_the_screen() {
    let mut t = TextBuffer::new();
    t.write_text_to_buffer(&[b'x'; 30], 70, 30);
    assert_eq!(&t.buffer[70..80], &[b'x'; 10]);
    assert_eq!(&t.buffer[0..70], &[b' '; 70]);
}

#[test]
fn a_single_character_goes_inside_its_line_only() {
    let mut t = TextBuffer::new();
    assert!(t.write_character_to_single_position(LineNum::Line4, 3, 2));
    assert_eq!(t.buffer[63], 2);
    assert!(!t.write_character_to_single_position(LineNum::Line4, 20, 2));
    assert_eq!(LineNum::Line3.into_usize(), 2);
}

#[test]
fn the_mute_state_comes_from_the_pin() {
    assert_eq!(mute_state_from_pin(true, true), MuteState::NoAmplifier);
    assert_eq!(mute_state_from_pin(false, true), MuteState::Muted);
    assert_eq!(mute_state_from_pin(false, false), MuteState::NotMuted);
    assert_eq!(MuteState::Muted.to_display_string(), "muted");
    assert_eq!(MuteState::NotMuted.to_display_string(), "");
}

#[test]
fn the_pi_is_throttled_unless_it_says_so() {
    let t = throttled_from_output("throttled=0x0\n");
    assert!(!t.pi_is_throttled);
    assert_eq!(t.result, "throttled=0x0");
    assert!(throttled_from_output("throttled=0x50000").pi_is_throttled);
}

#[test]
fn the_cpu_temperature_is_read_in_whole_degrees() {
    assert_eq!(cpu_temperature_from_text("48312\n"), 48);
    assert_eq!(cpu_temperature_from_text("-1500"), -1);
    assert_eq!(cpu_temperature_from_text("hot"), -3);
}
