//! The keyboard: which key asks for what, and the entry of a two-digit channel number, whose
//! second digit must come within the input timeout of the first.
use vstd::prelude::*;

verus! {

/// An enum of all posssible outputs from the keyboard
#[derive(Debug, PartialEq, Eq, Structural, Clone, Copy)]
pub enum Event {
    PlayPause,
    EjectCD,
    VolumeUp,
    VolumeDown,
    PreviousTrack,
    NextTrack,
    /// output the status of rradio
    OutputStatusDebug,
    /// output the config info
    OutputConfigDebug,
    /// output the contents of the mount folders
    OutputMountFolderContents,
    /// output a blank line on the screen
    NewLineOnScreen,
    /// channel_number will be in the range "00" to "99", giving us the number of the station to play
    PlayStation { channel_number: usize },
}

/// A key as the terminal reports it.
#[derive(Debug, PartialEq, Eq, Structural, Clone, Copy)]
pub enum Key {
    Char(char),
    Enter,
    Backspace,
    /// Any other key.
    Other,
}

/// What is to be done with a key.
#[derive(Debug, PartialEq, Eq, Structural, Clone, Copy)]
pub enum KeyAction {
    /// Stop reading the keyboard (`q`, `Q` or backspace).
    Quit,
    /// Hand this event to the player.
    Send(Event),
    /// Nothing to send (yet).
    Ignore,
}

/// The state of the keyboard: the first digit of a channel number, if one was typed, and
/// when (in milliseconds of the caller's clock).
#[derive(Debug, Clone, Copy)]
pub struct KeyboardState {
    pub stored_previous_digit_and_time: Option<(char, u64)>,
}

impl KeyboardState {
    /// No digit typed yet.
    pub fn new() -> (r: Self)
        ensures
            r.stored_previous_digit_and_time is None,
    {
        KeyboardState { stored_previous_digit_and_time: None }
    }
}

/// The event that a key other than a digit asks for, if any.
pub open spec fn command_of(key: Key) -> Option<Event> {
    match key {
        Key::Enter => Some(Event::PlayPause),
        Key::Char(c) => if c == '.' {
            Some(Event::EjectCD)
        } else if c == '*' {
            Some(Event::VolumeUp)
        } else if c == '/' {
            Some(Event::VolumeDown)
        } else if c == '-' {
            Some(Event::PreviousTrack)
        } else if c == '+' {
            Some(Event::NextTrack)
        } else if c == '!' {
            Some(Event::OutputStatusDebug)
        } else if c == '£' {
            Some(Event::OutputConfigDebug)
        } else if c == '$' {
            Some(Event::OutputMountFolderContents)
        } else if c == '^' {
            Some(Event::NewLineOnScreen)
        } else {
            None
        },
        _ => None,
    }
}

/// The key stops the keyboard.
pub open spec fn is_quit_key(key: Key) -> bool {
    key == Key::Backspace || key == Key::Char('q') || key == Key::Char('Q')
}

/// A decimal digit.
pub open spec fn is_digit(c: char) -> bool {
    '0' <= c && c <= '9'
}

/// The value of a decimal digit.
pub open spec fn digit_value(c: char) -> nat {
    (c as u32 - '0' as u32) as nat
}

/// Works out what a key asks for, as `setup_keyboard` does. A digit typed within
/// `input_timeout_ms` of a first one completes a channel number; otherwise it is kept as the
/// first digit. Any event sent forgets the stored digit.
pub fn handle_key(state: &mut KeyboardState, key: Key, now_ms: u64, input_timeout_ms: u64) -> (r: KeyAction)
    requires
        old(state).stored_previous_digit_and_time matches Some((d, _)) ==> is_digit(d),
    ensures
        is_quit_key(key) ==> r == KeyAction::Quit && *final(state) == *old(state),
        !is_quit_key(key) && command_of(key) is Some ==> r == KeyAction::Send(command_of(key)->0)
            && final(state).stored_previous_digit_and_time is None,
        key matches Key::Char(c) ==> (is_digit(c) ==> match old(state).stored_previous_digit_and_time {
            Some((d, t)) => if now_ms >= t && now_ms - t < input_timeout_ms {
                &&& r == KeyAction::Send(
                    Event::PlayStation { channel_number: (10 * digit_value(d) + digit_value(c)) as usize },
                )
                &&& final(state).stored_previous_digit_and_time is None
            } else {
                r == KeyAction::Ignore && final(state).stored_previous_digit_and_time == Some((c, now_ms))
            },
            None => r == KeyAction::Ignore && final(state).stored_previous_digit_and_time == Some((c, now_ms)),
        }),
        !is_quit_key(key) && command_of(key) is None && !(key is Char && is_digit(key->Char_0))
            ==> r == KeyAction::Ignore && *final(state) == *old(state),
        final(state).stored_previous_digit_and_time matches Some((d, _)) ==> is_digit(d),
        r matches KeyAction::Send(Event::PlayStation { channel_number }) ==> channel_number < 100,
{
    let action = match key {
        Key::Backspace => return KeyAction::Quit,
        Key::Enter => Event::PlayPause,
        Key::Other => return KeyAction::Ignore,
        Key::Char(c) => {
            if c == 'q' || c == 'Q' {
                return KeyAction::Quit;
            } else if c == '.' {
                Event::EjectCD
            } else if c == '*' {
                Event::VolumeUp
            } else if c == '/' {
                Event::VolumeDown
            } else if c == '-' {
                Event::PreviousTrack
            } else if c == '+' {
                Event::NextTrack
            } else if c == '!' {
                Event::OutputStatusDebug
            } else if c == '£' {
                Event::OutputConfigDebug
            } else if c == '$' {
                Event::OutputMountFolderContents
            } else if c == '^' {
                Event::NewLineOnScreen
            } else if '0' <= c && c <= '9' {
                let current = (c as u32 - '0' as u32) as usize;
                match state.stored_previous_digit_and_time {
                    Some((previous_digit, previous_time)) => {
                        if now_ms >= previous_time && now_ms - previous_time < input_timeout_ms {
                            let previous = (previous_digit as u32 - '0' as u32) as usize;
                            Event::PlayStation { channel_number: 10 * previous + current }
                        } else {
                            state.stored_previous_digit_and_time = Some((c, now_ms));
                            return KeyAction::Ignore;
                        }
                    },
                    None => {
                        state.stored_previous_digit_and_time = Some((c, now_ms));
                        return KeyAction::Ignore;
                    },
                }
            } else {
                return KeyAction::Ignore;
            }
        },
    };
    state.stored_previous_digit_and_time = None;
    KeyAction::Send(action)
}

/// The command keys and what each asks for: Enter plays or pauses, `.` ejects the CD, `*`
/// and `/` turn the volume up and down, `-` and `+` go to the previous and next track, `!`
/// shows the player's status, `£` the configuration, `$` the contents of the mount folders,
/// and `^` puts a blank line on the screen.
pub proof fn lemma_command_keys()
    ensures
        command_of(Key::Enter) == Some(Event::PlayPause),
        command_of(Key::Char('.')) == Some(Event::EjectCD),
        command_of(Key::Char('*')) == Some(Event::VolumeUp),
        command_of(Key::Char('/')) == Some(Event::VolumeDown),
        command_of(Key::Char('-')) == Some(Event::PreviousTrack),
        command_of(Key::Char('+')) == Some(Event::NextTrack),
        command_of(Key::Char('!')) == Some(Event::OutputStatusDebug),
        command_of(Key::Char('£')) == Some(Event::OutputConfigDebug),
        command_of(Key::Char('$')) == Some(Event::OutputMountFolderContents),
        command_of(Key::Char('^')) == Some(Event::NewLineOnScreen),
{
}

/// Two different keys never ask for the same command.
pub proof fn lemma_commands_are_distinct(first: Key, second: Key)
    requires
        command_of(first) is Some,
        command_of(first) == command_of(second),
    ensures
        first == second,
{
}

/// Every event other than playing a station is asked for by some key, which is neither a
/// quit key nor a digit.
pub proof fn lemma_every_command_has_a_key(event: Event)
    requires
        !(event is PlayStation),
    ensures
        exists|key: Key| #[trigger] command_of(key) == Some(event) && !is_quit_key(key)
            && !(key is Char && is_digit(key->Char_0)),
{
    let key = match event {
        Event::PlayPause => Key::Enter,
        Event::EjectCD => Key::Char('.'),
        Event::VolumeUp => Key::Char('*'),
        Event::VolumeDown => Key::Char('/'),
        Event::PreviousTrack => Key::Char('-'),
        Event::NextTrack => Key::Char('+'),
        Event::OutputStatusDebug => Key::Char('!'),
        Event::OutputConfigDebug => Key::Char('£'),
        Event::OutputMountFolderContents => Key::Char('$'),
        Event::NewLineOnScreen => Key::Char('^'),
        Event::PlayStation { .. } => Key::Other,
    };
    assert(command_of(key) == Some(event));
}

/// The value of a digit key is the digit itself: from 0 for `0` up to 9 for `9`, so two
/// digits typed in time give the channel number they spell, from 0 to 99.
pub proof fn lemma_digit_values(first: char, second: char)
    requires
        is_digit(first),
        is_digit(second),
    ensures
        digit_value('0') == 0,
        digit_value('9') == 9,
        digit_value(first) == first as int - '0' as int,
        digit_value(first) < 10,
        10 * digit_value(first) + digit_value(second) < 100,
        first != second ==> digit_value(first) != digit_value(second),
{
}

} // verus!
