use rradio::keyboard::{Event, Key, KeyAction, KeyboardState, handle_key};

#[test]
fn command_keys_send_their_events() {
    let mut s = KeyboardState::new();
    assert_eq!(handle_key(&mut s, Key::Enter, 0, 3000), KeyAction::Send(Event::PlayPause));
    assert_eq!(handle_key(&mut s, Key::Char('*'), 0, 3000), KeyAction::Send(Event::VolumeUp));
    assert_eq!(handle_key(&mut s, Key::Char('/'), 0, 3000), KeyAction::Send(Event::VolumeDown));
    assert_eq!(handle_key(&mut s, Key::Char('+'), 0, 3000), KeyAction::Send(Event::NextTrack));
    assert_eq!(handle_key(&mut s, Key::Char('-'), 0, 3000), KeyAction::Send(Event::PreviousTrack));
    assert_eq!(handle_key(&mut s, Key::Char('.'), 0, 3000), KeyAction::Send(Event::EjectCD));
    assert_eq!(handle_key(&mut s, Key::Char('£'), 0, 3000), KeyAction::Send(Event::OutputConfigDebug));
    assert_eq!(handle_key(&mut s, Key::Char('x'), 0, 3000), KeyAction::Ignore);
    assert_eq!(handle_key(&mut s, Key::Other, 0, 3000), KeyAction::Ignore);
}

#[test]
fn quit_keys_stop_the_keyboard() {
    let mut s = KeyboardState::new();
    assert_eq!(handle_key(&mut s, Key::Char('q'), 0, 3000), KeyAction::Quit);
    assert_eq!(handle_key(&mut s, Key::Backspace, 0, 3000), KeyAction::Quit);
}

#[test]
fn two_quick_digits_play_a_channel() {
    let mut s = KeyboardState::new();
    assert_eq!(handle_key(&mut s, Key::Char('0'), 100, 3000), KeyAction::Ignore);
    assert_eq!(handle_key(&mut s, Key::Char('7'), 900, 3000), KeyAction::Send(Event::PlayStation { channel_number: 7 }));
    assert_eq!(s.stored_previous_digit_and_time, None);
}

#[test]
fn a_late_second_digit_starts_a_new_number() {
    let mut s = KeyboardState::new();
    assert_eq!(handle_key(&mut s, Key::Char('4'), 100, 3000), KeyAction::Ignore);
    assert_eq!(handle_key(&mut s, Key::Char('2'), 3100, 3000), KeyAction::Ignore);
    assert_eq!(s.stored_previous_digit_and_time, Some(('2', 3100)));
    assert_eq!(handle_key(&mut s, Key::Char('5'), 3200, 3000), KeyAction::Send(Event::PlayStation { channel_number: 25 }));
}

#[test]
fn a_command_forgets_the_first_digit() {
    let mut s = KeyboardState::new();
    handle_key(&mut s, Key::Char('4'), 100, 3000);
    assert_eq!(handle_key(&mut s, Key::Char('*'), 200, 3000), KeyAction::Send(Event::VolumeUp));
    assert_eq!(handle_key(&mut s, Key::Char('2'), 300, 3000), KeyAction::Ignore);
}
