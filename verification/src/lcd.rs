//! The text shown on the 20 x 4 character LCD screen: encoding into the screen's character
//! set, scrolling, and the buffer that holds a whole screen.
use vstd::prelude::*;
use vstd::utf8::encode_utf8;
use vstd::string::StringSliceAdditionalSpecFns;
use crate::read_config::Config;
use crate::text::{hex_digit, hex_digit_exec, push_char};

verus! {

/// List of the 4 line numbers on the LCD drive
#[derive(PartialEq, Eq, Structural, Debug, Clone, Copy)]
pub enum LineNum {
    Line1,
    Line2,
    Line3,
    Line4,
}

/// The index, counted from 0, of a line.
pub open spec fn line_index(line: LineNum) -> nat {
    match line {
        LineNum::Line1 => 0,
        LineNum::Line2 => 1,
        LineNum::Line3 => 2,
        LineNum::Line4 => 3,
    }
}

impl LineNum {
    /// encodes the line numbers on the LCD screen
    pub fn into_usize(self) -> (r: usize)
        ensures
            r == line_index(self),
    {
        match self {
            LineNum::Line1 => 0,
            LineNum::Line2 => 1,
            LineNum::Line3 => 2,
            LineNum::Line4 => 3,
        }
    }
}

/// Specifies if we are starting up, in which case we want to see the startup message, shutting down or running normally.
/// or there is a long message to display
#[derive(Debug, PartialEq, Eq, Structural, Clone, Copy)]
pub enum RunningStatus {
    Startingup,
    /// User entered a channel that could not be found
    NoChannel,
    /// User entered at least twice consecutively a channel that could not be found
    NoChannelRepeated,
    /// the state when there is no error message, & neither starting up nor shutting down
    RunningNormally,
    /// there is a long error message that uses all 4 lines & probably needs to scroll
    LongMessageOnAll4Lines,
    ShuttingDown,
}

/// The display is visually 20 * 4 characters
pub const NUM_CHARACTERS_PER_LINE: usize = 20;
pub const NUM_CHARACTERS_PER_SCREEN: usize = 80;
/// Number of characters needed to display the volume (or anything put in place of the volume)
pub const VOLUME_CHAR_COUNT: usize = 7;
/// Number of chacters to one first line less the characters needed to display the volume
pub const LINE1_DATA_CHAR_COUNT: usize = 13;

/// Characters that have been encoded to use the character set in the LCD's ROM
#[derive(Debug, Default)]
pub struct LcdScreenEncodedText {
    pub bytes: Vec<u8>,
}

/// How a byte of encoded text is shown when the text is debugged: printable ASCII as itself
/// (with `\\`, `"` and `'` escaped by a backslash), anything else as `\x` and two
/// lower-case hex digits.
pub open spec fn debug_byte(b: u8) -> Seq<char> {
    if 0x20 <= b && b <= 126 {
        let c = b as char;
        if c == '\\' || c == '"' || c == '\'' {
            seq!['\\', c]
        } else {
            seq![c]
        }
    } else {
        seq!['\\', 'x', hex_digit((b / 16) as nat), hex_digit((b % 16) as nat)]
    }
}

/// The bytes of encoded text as they are shown when debugged, one after another.
pub open spec fn debug_bytes(s: Seq<u8>) -> Seq<char>
    decreases s.len(),
{
    if s.len() == 0 {
        Seq::empty()
    } else {
        debug_bytes(s.drop_last()) + debug_byte(s.last())
    }
}

/// Encoded text as it is shown when debugged: between double quotes.
pub open spec fn debug_text_spec(s: Seq<u8>) -> Seq<char> {
    seq!['"'] + debug_bytes(s) + seq!['"']
}

impl LcdScreenEncodedText {
    /// The text as it is shown when debugged: between double quotes, printable ASCII as
    /// itself (quotes and backslash escaped), other bytes as `\x` and two hex digits.
    pub fn debug_text(&self) -> (r: String)
        ensures
            r@ == debug_text_spec(self.bytes@),
    {
        let mut r = String::new();
        push_char(&mut r, '"');
        let mut i: usize = 0;
        while i < self.bytes.len()
            invariant
                i <= self.bytes@.len(),
                r@ == seq!['"'] + debug_bytes(self.bytes@.subrange(0, i as int)),
            decreases self.bytes@.len() - i,
        {
            let b = self.bytes[i];
            let ghost before = r@;
            if 0x20 <= b && b <= 126 {
                let c = b as char;
                if c == '\\' || c == '"' || c == '\'' {
                    push_char(&mut r, '\\');
                }
                push_char(&mut r, c);
            } else {
                push_char(&mut r, '\\');
                push_char(&mut r, 'x');
                push_char(&mut r, hex_digit_exec(b / 16));
                push_char(&mut r, hex_digit_exec(b % 16));
            }
            assert(r@ =~= before + debug_byte(b));
            assert(self.bytes@.subrange(0, i + 1).drop_last() =~= self.bytes@.subrange(0, i as int));
            i = i + 1;
        }
        push_char(&mut r, '"');
        assert(self.bytes@.subrange(0, i as int) =~= self.bytes@);
        assert(r@ =~= debug_text_spec(self.bytes@));
        r
    }
}

/// What `unidecode::unidecode_char` returns for a character: its ASCII transliteration.
pub uninterp spec fn transliteration(c: char) -> Seq<char>;

/// Calls `unidecode::unidecode_char`. Claimed: the result is a function of the character
/// alone, named `transliteration`.
#[verifier::external_body]
fn unidecode_char_of(c: char) -> (r: &'static str)
    ensures
        r@ == transliteration(c),
{
    unidecode::unidecode_char(c)
}

/// The bytes that stand for a character in the LCD's character set: printable ASCII below
/// `~` as itself, a few accented letters and symbols as the screen's own codes, newline and
/// carriage return as visible marks, anything else as its ASCII transliteration.
pub open spec fn lcd_code(c: char) -> Seq<u8> {
    if c < '~' && c != '\n' && c != '\r' {
        seq![c as u8]
    } else if c == 'é' {
        seq![5u8]
    } else if c == 'è' {
        seq![6u8]
    } else if c == 'à' {
        seq![7u8]
    } else if c == 'ä' {
        seq![0xE1u8]
    } else if c == 'ñ' {
        seq![0xEEu8]
    } else if c == 'ö' {
        seq![0xEFu8]
    } else if c == 'ü' {
        seq![0xF5u8]
    } else if c == 'π' {
        seq![0xE4u8]
    } else if c == 'µ' {
        seq![0xF7u8]
    } else if c == '~' {
        seq![0xF3u8]
    } else if c == '\u{E080}' {
        seq![0xFFu8]
    } else if c == '\n' {
        seq![0xCDu8]
    } else if c == '\r' {
        seq![0xCFu8]
    } else {
        encode_utf8(transliteration(c))
    }
}

/// A text encoded into the LCD's character set, character by character.
pub open spec fn lcd_encode(s: Seq<char>) -> Seq<u8>
    decreases s.len(),
{
    if s.len() == 0 {
        Seq::empty()
    } else {
        lcd_encode(s.drop_last()) + lcd_code(s.last())
    }
}

/// Appends the LCD code of a character.
fn push_lcd_code(bytes: &mut Vec<u8>, c: char)
    ensures
        final(bytes)@ == old(bytes)@ + lcd_code(c),
{
    if c < '~' && c != '\n' && c != '\r' {
        bytes.push(c as u8);
    } else if c == 'é' {
        bytes.push(5);
    } else if c == 'è' {
        bytes.push(6);
    } else if c == 'à' {
        bytes.push(7);
    } else if c == 'ä' {
        bytes.push(0xE1);
    } else if c == 'ñ' {
        bytes.push(0xEE);
    } else if c == 'ö' {
        bytes.push(0xEF);
    } else if c == 'ü' {
        bytes.push(0xF5);
    } else if c == 'π' {
        bytes.push(0xE4);
    } else if c == 'µ' {
        bytes.push(0xF7);
    } else if c == '~' {
        bytes.push(0xF3);
    } else if c == '\u{E080}' {
        bytes.push(0xFF);
    } else if c == '\n' {
        bytes.push(0xCD);
    } else if c == '\r' {
        bytes.push(0xCF);
    } else {
        let t = unidecode_char_of(c);
        let b = t.as_bytes();
        let mut i: usize = 0;
        while i < b.len()
            invariant
                i <= b@.len(),
                b@ == encode_utf8(transliteration(c)),
                bytes@ == old(bytes)@ + b@.subrange(0, i as int),
            decreases b@.len() - i,
        {
            bytes.push(b[i]);
            assert(b@.subrange(0, i + 1) =~= b@.subrange(0, i as int).push(b@[i as int]));
            i = i + 1;
        }
        assert(b@.subrange(0, i as int) =~= b@);
        return;
    }
    assert(final(bytes)@ =~= old(bytes)@ + lcd_code(c));
}

/// Encodes a text into the LCD's character set.
pub fn encode_for_lcd(text: &str) -> (r: Vec<u8>)
    ensures
        r@ == lcd_encode(text@),
{
    let chars = crate::text::chars_of(text);
    let mut bytes: Vec<u8> = Vec::new();
    let mut i: usize = 0;
    while i < chars.len()
        invariant
            i <= chars@.len(),
            chars@ == text@,
            bytes@ == lcd_encode(chars@.subrange(0, i as int)),
        decreases chars@.len() - i,
    {
        push_lcd_code(&mut bytes, chars[i]);
        assert(chars@.subrange(0, i + 1).drop_last() =~= chars@.subrange(0, i as int));
        i = i + 1;
    }
    assert(chars@.subrange(0, i as int) =~= chars@);
    bytes
}

#[verifier::external_type_specification]
#[verifier::external_body]
pub struct ExInstant(std::time::Instant);

/// Calls `std::time::Instant::now`. Nothing is claimed of the result: it is the time.
#[verifier::external_body]
fn instant_now() -> (r: std::time::Instant) {
    std::time::Instant::now()
}

/// Calls `Instant::elapsed` and gives it in whole milliseconds (`Duration::as_millis`).
/// Nothing is claimed of the result: it depends on the time.
#[verifier::external_body]
fn elapsed_ms(t: &std::time::Instant) -> (r: u128) {
    t.elapsed().as_millis()
}

/// Holds the text, and information on how to display it, namely the scroll position,
/// the number of lines & the time the text was last scrolled.
#[derive(Debug)]
pub struct ScrollData {
    pub text: LcdScreenEncodedText,
    pub scroll_position: usize,
    pub num_lines: usize,
    pub last_update_time: std::time::Instant,
}

/// The first index `k` with `min_scroll <= k < max_scroll` and `k < bytes.len()` at which
/// there is a space, at or after `k`.
pub open spec fn first_space_from(bytes: Seq<u8>, k: int, max_scroll: int) -> Option<int>
    decreases bytes.len() - k,
{
    if k < 0 || k >= max_scroll || k >= bytes.len() {
        None
    } else if bytes[k] == 32u8 {
        Some(k)
    } else {
        first_space_from(bytes, k + 1, max_scroll)
    }
}

/// How far a scroll advances: to the first space at least `min_scroll` and less than
/// `max_scroll` characters on, or by `min_scroll` if there is none.
pub open spec fn scroll_increment(bytes: Seq<u8>, min_scroll: nat, max_scroll: nat) -> nat {
    match first_space_from(bytes, min_scroll as int, max_scroll as int) {
        Some(k) => k as nat,
        None => min_scroll,
    }
}

/// The scroll position after one scroll step: back to the start when the text would run
/// out, or when fewer than 10 characters would be left to show.
pub open spec fn next_scroll_position(bytes: Seq<u8>, position: nat, min_scroll: nat, max_scroll: nat) -> nat {
    let p = position + scroll_increment(bytes, min_scroll, max_scroll);
    if p > bytes.len() || bytes.len() - p < 10 {
        0
    } else {
        p
    }
}

/// The bytes of a text from a position on (nothing if the position is past its end).
pub open spec fn bytes_from(bytes: Seq<u8>, position: nat) -> Seq<u8> {
    if position <= bytes.len() {
        bytes.subrange(position as int, bytes.len() as int)
    } else {
        Seq::empty()
    }
}

/// `new` is `old` after `update_scroll(config, available)`: unchanged (the text fits, or
/// no step is due yet), or, for a text longer than `available`, the same text one scroll
/// step further on.
pub open spec fn scroll_stepped(new: ScrollData, old: ScrollData, config: Config, available: nat) -> bool {
    ||| new == old
    ||| {
        &&& old.text.bytes@.len() > available
        &&& new.text == old.text
        &&& new.num_lines == old.num_lines
        &&& new.scroll_position == next_scroll_position(
            old.text.bytes@,
            old.scroll_position as nat,
            config.scroll.min_scroll as nat,
            config.scroll.max_scroll as nat,
        )
    }
}

/// `new` is `old` after `update_if_changed(text)`: it holds the encoded text; it is unchanged
/// when it held that text already, and otherwise starts again from the start of the text.
pub open spec fn updated_to_show(new: ScrollData, old: ScrollData, text: Seq<char>) -> bool {
    &&& new.text.bytes@ == lcd_encode(text)
    &&& new.num_lines == old.num_lines
    &&& old.text.bytes@ == lcd_encode(text) ==> new == old
    &&& old.text.bytes@ != lcd_encode(text) ==> new.scroll_position == 0
}

/// A scroll step never leaves fewer than ten characters to show: the text starts again
/// instead.
pub proof fn lemma_scroll_leaves_ten_characters(bytes: Seq<u8>, position: nat, min_scroll: nat, max_scroll: nat)
    ensures
        next_scroll_position(bytes, position, min_scroll, max_scroll) == 0 || next_scroll_position(
            bytes,
            position,
            min_scroll,
            max_scroll,
        ) + 10 <= bytes.len(),
{
}

/// Text made of plain ASCII characters (below `~`, no line breaks) reaches the screen as its
/// own bytes.
pub proof fn lemma_plain_ascii_is_unchanged(s: Seq<char>)
    requires
        forall|i: int| 0 <= i < s.len() ==> #[trigger] s[i] < '~' && s[i] != '\n' && s[i] != '\r',
    ensures
        lcd_encode(s) == s.map_values(|c: char| c as u8),
    decreases s.len(),
{
    if s.len() > 0 {
        let init = s.drop_last();
        assert forall|i: int| 0 <= i < init.len() implies #[trigger] init[i] < '~' && init[i] != '\n'
            && init[i] != '\r' by {
            assert(init[i] == s[i]);
        }
        lemma_plain_ascii_is_unchanged(init);
        assert(s[s.len() - 1] == s.last());
        assert(lcd_code(s.last()) == seq![s.last() as u8]);
        assert(s.map_values(|c: char| c as u8) =~= init.map_values(|c: char| c as u8).push(s.last() as u8));
    }
}

impl ScrollData {
    /// encodes the new text into the LCD screen character set & stores that in text_bytes.
    /// Also initialises the scrolling state.
    pub fn new(text: &str, num_lines: usize) -> (r: Self)
        ensures
            r.text.bytes@ == lcd_encode(text@),
            r.scroll_position == 0,
            r.num_lines == num_lines,
    {
        Self {
            text: LcdScreenEncodedText { bytes: encode_for_lcd(text) },
            scroll_position: 0,
            num_lines,
            last_update_time: instant_now(),
        }
    }

    /// The scroll position after a scroll step, if a step is due: the text is longer than the
    /// characters available and at least `scroll_period_ms` has passed since the last step.
    pub fn scroll_position_after(
        &self,
        config: &Config,
        number_of_available_characters: usize,
        elapsed_ms: u128,
    ) -> (r: Option<usize>)
        ensures
            (self.text.bytes@.len() > number_of_available_characters && elapsed_ms
                >= config.scroll.scroll_period_ms) <==> r is Some,
            r matches Some(p) ==> p == next_scroll_position(
                self.text.bytes@,
                self.scroll_position as nat,
                config.scroll.min_scroll as nat,
                config.scroll.max_scroll as nat,
            ),
    {
        let bytes = &self.text.bytes;
        if bytes.len() <= number_of_available_characters || elapsed_ms < config.scroll.scroll_period_ms as u128 {
            return None;
        }
        let min_scroll = config.scroll.min_scroll;
        let max_scroll = config.scroll.max_scroll;
        let increment = match first_space(bytes, min_scroll, max_scroll) {
            Some(k) => k,
            None => min_scroll,
        };
        assert(increment == scroll_increment(bytes@, min_scroll as nat, max_scroll as nat));
        let position = self.scroll_position;
        if position > bytes.len() || increment > bytes.len() - position {
            return Some(0);
        }
        let p = position + increment;
        if bytes.len() - p < 10 {
            Some(0)
        } else {
            Some(p)
        }
    }

    /// Given a scrollable line, if it is time to scroll, updates the scroll position & last_update_time.
    /// or does nothing if it is not yet time to scroll
    pub fn update_scroll(&mut self, config: &Config, number_of_available_characters: usize)
        ensures
            scroll_stepped(*final(self), *old(self), *config, number_of_available_characters as nat),
    {
        if self.text.bytes.len() <= number_of_available_characters {
            return;
        }
        let elapsed = elapsed_ms(&self.last_update_time);
        if let Some(p) = self.scroll_position_after(config, number_of_available_characters, elapsed) {
            self.scroll_position = p;
            self.last_update_time = instant_now();
        }
    }

    /// Updates self with the new text (and initialises the scrolling state) if the encoded
    /// version of `new_text` does not match the current text.
    pub fn update_if_changed(&mut self, new_text: &str)
        ensures
            final(self).text.bytes@ == lcd_encode(new_text@),
            final(self).num_lines == old(self).num_lines,
            old(self).text.bytes@ == lcd_encode(new_text@) ==> *final(self) == *old(self),
            old(self).text.bytes@ != lcd_encode(new_text@) ==> final(self).scroll_position == 0,
    {
        let new_scroll_data = Self::new(new_text, self.num_lines);
        if !bytes_equal(&self.text.bytes, &new_scroll_data.text.bytes) {
            *self = new_scroll_data;
        }
    }

    /// Get the text bytes after the scroll position.
    pub fn bytes(&self) -> (r: Vec<u8>)
        ensures
            r@ == bytes_from(self.text.bytes@, self.scroll_position as nat),
    {
        let bytes = &self.text.bytes;
        let mut r: Vec<u8> = Vec::new();
        if self.scroll_position > bytes.len() {
            return r;
        }
        let mut i = self.scroll_position;
        while i < bytes.len()
            invariant
                self.scroll_position <= i <= bytes@.len(),
                r@ == bytes@.subrange(self.scroll_position as int, i as int),
            decreases bytes@.len() - i,
        {
            r.push(bytes[i]);
            assert(bytes@.subrange(self.scroll_position as int, i + 1) =~= bytes@.subrange(
                self.scroll_position as int,
                i as int,
            ).push(bytes@[i as int]));
            i = i + 1;
        }
        r
    }
}

/// The text buffer used to store the text of a whole screen.
#[derive(Debug)]
pub struct TextBuffer {
    pub buffer: [u8; 80],
}

/// The screen after `text` is written into it from position `start` on: at most
/// `octet_count` bytes, as many as the text has, and no further than the end of the screen.
pub open spec fn written(screen: Seq<u8>, text: Seq<u8>, start: int, octet_count: int) -> Seq<u8> {
    Seq::new(
        screen.len(),
        |i: int|
            if start <= i && i < start + octet_count && i - start < text.len() {
                text[i - start]
            } else {
                screen[i]
            },
    )
}

/// Writing text into a screen keeps its size and changes nothing outside the positions
/// `start..start + octet_count`.
pub proof fn lemma_written_changes_only_its_range(screen: Seq<u8>, text: Seq<u8>, start: int, octet_count: int, i: int)
    requires
        0 <= i < screen.len(),
        i < start || i >= start + octet_count,
    ensures
        written(screen, text, start, octet_count).len() == screen.len(),
        written(screen, text, start, octet_count)[i] == screen[i],
{
}

/// The bytes of a text as `str::bytes` gives them: its UTF-8 encoding.
pub open spec fn lcd_bytes(s: Seq<char>) -> Seq<u8> {
    encode_utf8(s)
}

/// A screen of spaces.
pub open spec fn blank_screen() -> Seq<u8> {
    Seq::new(80, |i: int| 32u8)
}

impl TextBuffer {
    /// Create a new empty textbuffer containing NUM_CHARACTERS_PER_SCREEN spaces
    pub fn new() -> (r: Self)
        ensures
            r.buffer@ == blank_screen(),
    {
        let r = Self { buffer: [32u8; 80] };
        assert(r.buffer@ =~= blank_screen());
        r
    }

    /// Copies octet_count octets from text into the offset specified by start into self.buffer;
    /// it stops at the end of the text or of the screen.
    pub fn write_text_to_buffer(&mut self, text_bytes: &[u8], start: usize, octet_count: usize)
        ensures
            final(self).buffer@ == written(
                old(self).buffer@,
                text_bytes@,
                start as int,
                octet_count as int,
            ),
    {
        let mut j: usize = 0;
        while j < octet_count && j < text_bytes.len() && start < NUM_CHARACTERS_PER_SCREEN && j
            < NUM_CHARACTERS_PER_SCREEN - start
            invariant
                self.buffer@ == written(old(self).buffer@, text_bytes@, start as int, j as int),
                j <= octet_count,
            decreases text_bytes@.len() - j,
        {
            self.buffer[start + j] = text_bytes[j];
            assert(self.buffer@ =~= written(
                old(self).buffer@,
                text_bytes@,
                start as int,
                j + 1,
            ));
            j = j + 1;
        }
        assert(self.buffer@ =~= written(
            old(self).buffer@,
            text_bytes@,
            start as int,
            octet_count as int,
        ));
    }

    /// copies (line_count * NUM_CHARACTERS_PER_LINE) octets into the buffer, from the start of
    /// the given line on
    pub fn write_text_to_lines(&mut self, text_bytes: &[u8], line: LineNum, line_count: usize)
        requires
            line_count * 20 <= usize::MAX,
        ensures
            final(self).buffer@ == written(
                old(self).buffer@,
                text_bytes@,
                line_index(line) * 20int,
                line_count * 20int,
            ),
    {
        self.write_text_to_buffer(
            text_bytes,
            line.into_usize() * NUM_CHARACTERS_PER_LINE,
            line_count * NUM_CHARACTERS_PER_LINE,
        );
    }

    /// copies NUM_CHARACTERS_PER_LINE octets into the specified line of the buffer
    pub fn write_text_to_single_line(&mut self, text_bytes: &[u8], line: LineNum)
        ensures
            final(self).buffer@ == written(
                old(self).buffer@,
                text_bytes@,
                line_index(line) * 20int,
                20,
            ),
    {
        self.write_text_to_lines(text_bytes, line, 1);
    }

    /// writes a single character at a position of a line; returns false, writing nothing, if
    /// the column is outside the line
    pub fn write_character_to_single_position(&mut self, line: LineNum, column: usize, character: u8) -> (r: bool)
        ensures
            r == (column < 20),
            r ==> final(self).buffer@ == old(self).buffer@.update(
                line_index(line) * 20 + column,
                character,
            ),
            !r ==> final(self).buffer@ == old(self).buffer@,
    {
        if column < NUM_CHARACTERS_PER_LINE {
            let index = line.into_usize() * NUM_CHARACTERS_PER_LINE + column;
            self.buffer[index] = character;
            true
        } else {
            false
        }
    }
}

/// Specifies the state of the DigiAMP+ amplifier
#[derive(PartialEq, Eq, Structural, Debug, Clone, Copy)]
pub enum MuteState {
    /// the amplifer has been set to be muted
    Muted,
    /// the amplifer has been set to be not muted
    NotMuted,
    /// no DigiAMP+ amplfier present AND used.
    NoAmplifier,
    /// got an error & we could not work out if there was a DigiAMP+ amplfier
    ErrorFound,
}

/// The text shown for a mute state.
pub open spec fn mute_state_text(m: MuteState) -> Seq<char> {
    match m {
        MuteState::Muted => "muted"@,
        MuteState::NotMuted => ""@,
        MuteState::ErrorFound => "mute_error"@,
        MuteState::NoAmplifier => "No amplifier"@,
    }
}

impl MuteState {
    /// The text shown for the mute state.
    pub fn to_display_string(&self) -> (r: String)
        ensures
            r@ == mute_state_text(*self),
    {
        match self {
            MuteState::Muted => String::from_str("muted"),
            MuteState::NotMuted => String::from_str(""),
            MuteState::ErrorFound => String::from_str("mute_error"),
            MuteState::NoAmplifier => String::from_str("No amplifier"),
        }
    }
}

/// The mute state read from the amplifier's mute pin: no amplifier when the pin is an input,
/// otherwise muted when it is low.
pub fn mute_state_from_pin(pin_is_input: bool, pin_is_low: bool) -> (r: MuteState)
    ensures
        r == if pin_is_input {
            MuteState::NoAmplifier
        } else if pin_is_low {
            MuteState::Muted
        } else {
            MuteState::NotMuted
        },
{
    if pin_is_input {
        MuteState::NoAmplifier
    } else if pin_is_low {
        MuteState::Muted
    } else {
        MuteState::NotMuted
    }
}

/// A struct to allow us to return both the success as a bool & a String
#[derive(Debug)]
pub struct ThrottledAsStruct {
    /// true if the Pi is throttled
    pub pi_is_throttled: bool,
    /// the result of vcgencmd get_throttled, or an error message
    pub result: String,
}

/// The throttled state read from the trimmed output of `vcgencmd get_throttled`: the Pi is
/// throttled unless the output is exactly `throttled=0x0`.
pub fn throttled_from_output(output: &str) -> (r: ThrottledAsStruct)
    ensures
        r.result@ == crate::text::trim(output@),
        r.pi_is_throttled == (crate::text::trim(output@) != "throttled=0x0"@),
{
    let trimmed = crate::text::trim_exec(output);
    let same = crate::text::str_eq(trimmed.as_str(), "throttled=0x0");
    ThrottledAsStruct { pi_is_throttled: !same, result: trimmed }
}

/// The temperature in whole degrees Celsius that the CPU's thermal file holds in thousandths
/// of a degree (cut towards zero), or -3 when its trimmed text is not a whole number.
pub open spec fn cpu_temperature_spec(text: Seq<char>) -> int {
    match crate::text::parsed_i32(crate::text::trim(text)) {
        Some(milli) => if milli >= 0 {
            milli / 1000
        } else {
            -((-milli) / 1000)
        },
        None => -3,
    }
}

/// The temperature of the CPU read from its thermal file's text (see `cpu_temperature_spec`).
pub fn cpu_temperature_from_text(text: &str) -> (r: i32)
    ensures
        r == cpu_temperature_spec(text@),
{
    let trimmed = crate::text::trim_exec(text);
    match crate::text::parse_i32(trimmed.as_str()) {
        Some(milli) => {
            let m = milli as i64;
            if m >= 0 {
                (m / 1000) as i32
            } else {
                (-((-m) / 1000)) as i32
            }
        },
        None => -3,
    }
}

/// The first index `k` from `from` on, below `max_scroll` and inside `bytes`, holding a space.
fn first_space(bytes: &Vec<u8>, from: usize, max_scroll: usize) -> (r: Option<usize>)
    ensures
        r matches Some(k) ==> first_space_from(bytes@, from as int, max_scroll as int) == Some(
            k as int,
        ),
        r is None ==> first_space_from(bytes@, from as int, max_scroll as int) is None,
{
    let mut k = from;
    while k < max_scroll && k < bytes.len()
        invariant
            from <= k,
            first_space_from(bytes@, from as int, max_scroll as int) == first_space_from(
                bytes@,
                k as int,
                max_scroll as int,
            ),
        decreases bytes@.len() - k,
    {
        if bytes[k] == 32u8 {
            return Some(k);
        }
        k = k + 1;
    }
    None
}

/// Whether two byte vectors hold the same bytes.
pub fn bytes_equal(a: &Vec<u8>, b: &Vec<u8>) -> (r: bool)
    ensures
        r == (a@ == b@),
{
    if a.len() != b.len() {
        return false;
    }
    let mut i: usize = 0;
    while i < a.len()
        invariant
            a@.len() == b@.len(),
            i <= a@.len(),
            forall|j: int| 0 <= j < i ==> a@[j] == b@[j],
        decreases a@.len() - i,
    {
        if a[i] != b[i] {
            return false;
        }
        i = i + 1;
    }
    assert(a@ =~= b@);
    true
}

} // verus!
