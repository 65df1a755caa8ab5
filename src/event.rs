use vstd::prelude::*;

verus! {

/// True when every bit of `flag` is set in `bits`.
pub open spec fn has_bits(bits: u8, flag: u8) -> bool {
    bits & flag == flag
}

/// A set of key modifiers, one bit each: Shift `1`, Control `2`, Alt `4`,
/// Super `8`, Hyper `16`, Meta `32`.
///
/// Super, Hyper and Meta are only reported once keyboard enhancement has been
/// negotiated with the terminal.
#[derive(Debug, Clone, Copy, PartialEq, Eq, Structural, PartialOrd, Ord, Hash)]
pub struct KeyModifiers {
    pub bits: u8,
}

impl KeyModifiers {
    /// No modifier.
    pub fn empty() -> (r: KeyModifiers)
        ensures
            r.bits == 0,
    {
        KeyModifiers { bits: 0 }
    }

    /// No modifier; the same set as `empty`.
    pub fn none() -> (r: KeyModifiers)
        ensures
            r.bits == 0,
    {
        KeyModifiers { bits: 0 }
    }

    pub fn shift() -> (r: KeyModifiers)
        ensures
            r.bits == 1,
    {
        KeyModifiers { bits: 1 }
    }

    pub fn control() -> (r: KeyModifiers)
        ensures
            r.bits == 2,
    {
        KeyModifiers { bits: 2 }
    }

    pub fn alt() -> (r: KeyModifiers)
        ensures
            r.bits == 4,
    {
        KeyModifiers { bits: 4 }
    }

    pub fn super_key() -> (r: KeyModifiers)
        ensures
            r.bits == 8,
    {
        KeyModifiers { bits: 8 }
    }

    pub fn hyper() -> (r: KeyModifiers)
        ensures
            r.bits == 16,
    {
        KeyModifiers { bits: 16 }
    }

    pub fn meta() -> (r: KeyModifiers)
        ensures
            r.bits == 32,
    {
        KeyModifiers { bits: 32 }
    }

    pub fn bits(&self) -> (r: u8)
        ensures
            r == self.bits,
    {
        self.bits
    }

    pub fn contains(&self, other: KeyModifiers) -> (r: bool)
        ensures
            r == has_bits(self.bits, other.bits),
    {
        self.bits & other.bits == other.bits
    }

    pub fn union(self, other: KeyModifiers) -> (r: KeyModifiers)
        ensures
            r.bits == self.bits | other.bits,
    {
        KeyModifiers { bits: self.bits | other.bits }
    }

    pub fn insert(&mut self, other: KeyModifiers)
        ensures
            final(self).bits == old(self).bits | other.bits,
    {
        self.bits = self.bits | other.bits;
    }
}

/// Extra state of a key event, one bit each: keypad `1`, Caps Lock `8`,
/// Num Lock `8`.
///
/// Only reported once keyboard enhancement has been negotiated.
#[derive(Debug, Clone, Copy, PartialEq, Eq, Structural, PartialOrd, Ord, Hash)]
pub struct KeyEventState {
    pub bits: u8,
}

impl KeyEventState {
    pub fn empty() -> (r: KeyEventState)
        ensures
            r.bits == 0,
    {
        KeyEventState { bits: 0 }
    }

    pub fn keypad() -> (r: KeyEventState)
        ensures
            r.bits == 1,
    {
        KeyEventState { bits: 1 }
    }

    pub fn caps_lock() -> (r: KeyEventState)
        ensures
            r.bits == 8,
    {
        KeyEventState { bits: 8 }
    }

    pub fn num_lock() -> (r: KeyEventState)
        ensures
            r.bits == 8,
    {
        KeyEventState { bits: 8 }
    }

    pub fn bits(&self) -> (r: u8)
        ensures
            r == self.bits,
    {
        self.bits
    }

    pub fn contains(&self, other: KeyEventState) -> (r: bool)
        ensures
            r == has_bits(self.bits, other.bits),
    {
        self.bits & other.bits == other.bits
    }
}

/// Flags that ask a terminal for extra information in keyboard events, one
/// bit each: disambiguate escape codes `1`, report event types `2`, report
/// alternate keys `4`, report all keys as escape codes `8`.
#[derive(Debug, Clone, Copy, PartialEq, Eq, Structural, PartialOrd, Ord, Hash)]
pub struct KeyboardEnhancementFlags {
    pub bits: u8,
}

impl KeyboardEnhancementFlags {
    pub fn empty() -> (r: KeyboardEnhancementFlags)
        ensures
            r.bits == 0,
    {
        KeyboardEnhancementFlags { bits: 0 }
    }

    pub fn disambiguate_escape_codes() -> (r: KeyboardEnhancementFlags)
        ensures
            r.bits == 1,
    {
        KeyboardEnhancementFlags { bits: 1 }
    }

    pub fn report_event_types() -> (r: KeyboardEnhancementFlags)
        ensures
            r.bits == 2,
    {
        KeyboardEnhancementFlags { bits: 2 }
    }

    pub fn report_alternate_keys() -> (r: KeyboardEnhancementFlags)
        ensures
            r.bits == 4,
    {
        KeyboardEnhancementFlags { bits: 4 }
    }

    pub fn report_all_keys_as_escape_codes() -> (r: KeyboardEnhancementFlags)
        ensures
            r.bits == 8,
    {
        KeyboardEnhancementFlags { bits: 8 }
    }

    pub fn bits(&self) -> (r: u8)
        ensures
            r == self.bits,
    {
        self.bits
    }

    pub fn contains(&self, other: KeyboardEnhancementFlags) -> (r: bool)
        ensures
            r == has_bits(self.bits, other.bits),
    {
        self.bits & other.bits == other.bits
    }

    pub fn union(self, other: KeyboardEnhancementFlags) -> (r: KeyboardEnhancementFlags)
        ensures
            r.bits == self.bits | other.bits,
    {
        KeyboardEnhancementFlags { bits: self.bits | other.bits }
    }
}

/// A media key.
#[derive(Debug, PartialOrd, PartialEq, Eq, Structural, Clone, Copy, Hash)]
pub enum MediaKeyCode {
    Play,
    Pause,
    PlayPause,
    Reverse,
    Stop,
    FastForward,
    Rewind,
    TrackNext,
    TrackPrevious,
    Record,
    LowerVolume,
    RaiseVolume,
    MuteVolume,
}

/// A key that is itself a modifier.
#[derive(Debug, PartialOrd, PartialEq, Eq, Structural, Clone, Copy, Hash)]
pub enum ModifierKeyCode {
    LeftShift,
    LeftControl,
    LeftAlt,
    LeftSuper,
    LeftHyper,
    LeftMeta,
    RightShift,
    RightControl,
    RightAlt,
    RightSuper,
    RightHyper,
    RightMeta,
    IsoLevel3Shift,
    IsoLevel5Shift,
}

/// A key.
#[derive(Debug, PartialOrd, PartialEq, Eq, Structural, Clone, Copy, Hash)]
pub enum KeyCode {
    Backspace,
    Enter,
    Left,
    Right,
    Up,
    Down,
    Home,
    End,
    PageUp,
    PageDown,
    Tab,
    BackTab,
    Delete,
    Insert,
    /// A function key: `F(1)` is F1.
    F(u8),
    /// A character.
    Char(char),
    Null,
    Esc,
    CapsLock,
    ScrollLock,
    NumLock,
    PrintScreen,
    Pause,
    Menu,
    KeypadBegin,
    Media(MediaKeyCode),
    Modifier(ModifierKeyCode),
}

/// Whether a key went down, repeats, or went up.
#[derive(Debug, PartialOrd, PartialEq, Eq, Structural, Clone, Copy, Hash)]
pub enum KeyEventKind {
    Press,
    Repeat,
    Release,
}

/// A mouse button.
#[derive(Debug, PartialOrd, PartialEq, Eq, Structural, Clone, Copy, Hash)]
pub enum MouseButton {
    Left,
    Right,
    Middle,
}

/// What the mouse did.
#[derive(Debug, PartialOrd, PartialEq, Eq, Structural, Clone, Copy, Hash)]
pub enum MouseEventKind {
    Down(MouseButton),
    Up(MouseButton),
    Drag(MouseButton),
    Moved,
    ScrollDown,
    ScrollUp,
}

/// A mouse event at a cell of the terminal, with the modifiers held.
#[derive(Debug, PartialOrd, PartialEq, Eq, Structural, Clone, Copy, Hash)]
pub struct MouseEvent {
    pub kind: MouseEventKind,
    pub column: u16,
    pub row: u16,
    pub modifiers: KeyModifiers,
}

/// True for the letters `A` to `Z`.
pub open spec fn is_ascii_upper(c: char) -> bool {
    'A' <= c && c <= 'Z'
}

/// True for the letters `a` to `z`.
pub open spec fn is_ascii_lower(c: char) -> bool {
    'a' <= c && c <= 'z'
}

/// `c` with a letter `a` to `z` made upper case; any other character as it is.
pub open spec fn ascii_upper(c: char) -> char {
    if is_ascii_lower(c) {
        ((c as u32) - 32) as char
    } else {
        c
    }
}

fn is_ascii_uppercase(c: char) -> (r: bool)
    ensures
        r == is_ascii_upper(c),
{
    'A' <= c && c <= 'Z'
}

fn to_ascii_uppercase(c: char) -> (r: char)
    ensures
        r == ascii_upper(c),
{
    if 'a' <= c && c <= 'z' {
        ((c as u8) - 32) as char
    } else {
        c
    }
}

/// A key event.
///
/// Two key events are equal when their canonical forms (see `canonical`) are
/// equal field by field, and they hash alike exactly then: a key reported as
/// an upper-case letter, as a letter with Shift, or as both, is one key.
#[derive(Debug, PartialOrd, Clone, Copy)]
pub struct KeyEvent {
    /// The key itself.
    pub code: KeyCode,
    /// The modifiers held.
    pub modifiers: KeyModifiers,
    /// Press, repeat or release; only reported under keyboard enhancement.
    pub kind: KeyEventKind,
    /// Keypad, Caps Lock, Num Lock; only reported under keyboard enhancement.
    pub state: KeyEventState,
}

/// The canonical form of a key event: an upper-case letter gets Shift added;
/// otherwise a character with Shift held is made upper case; anything else
/// stays as it is.
pub open spec fn canonical(e: KeyEvent) -> KeyEvent {
    match e.code {
        KeyCode::Char(c) => if is_ascii_upper(c) {
            KeyEvent { modifiers: KeyModifiers { bits: e.modifiers.bits | 1 }, ..e }
        } else if has_bits(e.modifiers.bits, 1) {
            KeyEvent { code: KeyCode::Char(ascii_upper(c)), ..e }
        } else {
            e
        },
        _ => e,
    }
}

/// Whether two key events stand for the same key.
pub open spec fn same_key(a: KeyEvent, b: KeyEvent) -> bool {
    canonical(a) == canonical(b)
}

impl KeyEvent {
    /// A press of `code` with `modifiers`, and no extra state.
    pub fn new(code: KeyCode, modifiers: KeyModifiers) -> (r: KeyEvent)
        ensures
            r == (KeyEvent { code, modifiers, kind: KeyEventKind::Press, state: KeyEventState { bits: 0 } }),
    {
        KeyEvent { code, modifiers, kind: KeyEventKind::Press, state: KeyEventState::empty() }
    }

    /// An event of the given kind for `code` with `modifiers`, and no extra state.
    pub fn new_with_kind(code: KeyCode, modifiers: KeyModifiers, kind: KeyEventKind) -> (r:
        KeyEvent)
        ensures
            r == (KeyEvent { code, modifiers, kind, state: KeyEventState { bits: 0 } }),
    {
        KeyEvent { code, modifiers, kind, state: KeyEventState::empty() }
    }

    /// An event with every field given.
    pub fn new_with_kind_and_state(
        code: KeyCode,
        modifiers: KeyModifiers,
        kind: KeyEventKind,
        state: KeyEventState,
    ) -> (r: KeyEvent)
        ensures
            r == (KeyEvent { code, modifiers, kind, state }),
    {
        KeyEvent { code, modifiers, kind, state }
    }

    /// The canonical form of this event, so that Shift is held exactly when
    /// an upper-case letter is reported.
    pub fn normalize_case(self) -> (r: KeyEvent)
        ensures
            r == canonical(self),
    {
        let mut e = self;
        let c = match e.code {
            KeyCode::Char(c) => c,
            _ => return e,
        };
        if is_ascii_uppercase(c) {
            e.modifiers.insert(KeyModifiers::shift());
        } else if e.modifiers.contains(KeyModifiers::shift()) {
            e.code = KeyCode::Char(to_ascii_uppercase(c));
        }
        e
    }
}

impl From<KeyCode> for KeyEvent {
    fn from(code: KeyCode) -> (r: KeyEvent) {
        KeyEvent {
            code,
            modifiers: KeyModifiers::empty(),
            kind: KeyEventKind::Press,
            state: KeyEventState::empty(),
        }
    }
}

impl vstd::std_specs::convert::FromSpecImpl<KeyCode> for KeyEvent {
    open spec fn obeys_from_spec() -> bool {
        true
    }

    open spec fn from_spec(code: KeyCode) -> KeyEvent {
        KeyEvent {
            code,
            modifiers: KeyModifiers { bits: 0 },
            kind: KeyEventKind::Press,
            state: KeyEventState { bits: 0 },
        }
    }
}

impl PartialEq for KeyEvent {
    fn eq(&self, other: &KeyEvent) -> (r: bool) {
        let lhs = self.normalize_case();
        let rhs = other.normalize_case();
        lhs.code == rhs.code && lhs.modifiers == rhs.modifiers && lhs.kind == rhs.kind
            && lhs.state == rhs.state
    }
}

impl vstd::std_specs::cmp::PartialEqSpecImpl for KeyEvent {
    open spec fn obeys_eq_spec() -> bool {
        true
    }

    open spec fn eq_spec(&self, other: &KeyEvent) -> bool {
        same_key(*self, *other)
    }
}

impl Eq for KeyEvent {

}

/// Relies on std's `Hash` for `u32`, which feeds the number to a hasher;
/// nothing is claimed of what it feeds.
pub assume_specification<H: core::hash::Hasher>[ <u32 as core::hash::Hash>::hash::<H> ](
    value: &u32,
    hash_state: &mut H,
);

/// The number of a media key, in the order of declaration.
pub open spec fn spec_media_number(m: MediaKeyCode) -> u32 {
    match m {
        MediaKeyCode::Play => 0,
        MediaKeyCode::Pause => 1,
        MediaKeyCode::PlayPause => 2,
        MediaKeyCode::Reverse => 3,
        MediaKeyCode::Stop => 4,
        MediaKeyCode::FastForward => 5,
        MediaKeyCode::Rewind => 6,
        MediaKeyCode::TrackNext => 7,
        MediaKeyCode::TrackPrevious => 8,
        MediaKeyCode::Record => 9,
        MediaKeyCode::LowerVolume => 10,
        MediaKeyCode::RaiseVolume => 11,
        MediaKeyCode::MuteVolume => 12,
    }
}

#[verifier::when_used_as_spec(spec_media_number)]
fn media_number(m: MediaKeyCode) -> (r: u32)
    ensures
        r == spec_media_number(m),
{
    match m {
        MediaKeyCode::Play => 0,
        MediaKeyCode::Pause => 1,
        MediaKeyCode::PlayPause => 2,
        MediaKeyCode::Reverse => 3,
        MediaKeyCode::Stop => 4,
        MediaKeyCode::FastForward => 5,
        MediaKeyCode::Rewind => 6,
        MediaKeyCode::TrackNext => 7,
        MediaKeyCode::TrackPrevious => 8,
        MediaKeyCode::Record => 9,
        MediaKeyCode::LowerVolume => 10,
        MediaKeyCode::RaiseVolume => 11,
        MediaKeyCode::MuteVolume => 12,
    }
}

/// The number of a modifier key, in the order of declaration.
pub open spec fn spec_modifier_key_number(m: ModifierKeyCode) -> u32 {
    match m {
        ModifierKeyCode::LeftShift => 0,
        ModifierKeyCode::LeftControl => 1,
        ModifierKeyCode::LeftAlt => 2,
        ModifierKeyCode::LeftSuper => 3,
        ModifierKeyCode::LeftHyper => 4,
        ModifierKeyCode::LeftMeta => 5,
        ModifierKeyCode::RightShift => 6,
        ModifierKeyCode::RightControl => 7,
        ModifierKeyCode::RightAlt => 8,
        ModifierKeyCode::RightSuper => 9,
        ModifierKeyCode::RightHyper => 10,
        ModifierKeyCode::RightMeta => 11,
        ModifierKeyCode::IsoLevel3Shift => 12,
        ModifierKeyCode::IsoLevel5Shift => 13,
    }
}

#[verifier::when_used_as_spec(spec_modifier_key_number)]
fn modifier_key_number(m: ModifierKeyCode) -> (r: u32)
    ensures
        r == spec_modifier_key_number(m),
{
    match m {
        ModifierKeyCode::LeftShift => 0,
        ModifierKeyCode::LeftControl => 1,
        ModifierKeyCode::LeftAlt => 2,
        ModifierKeyCode::LeftSuper => 3,
        ModifierKeyCode::LeftHyper => 4,
        ModifierKeyCode::LeftMeta => 5,
        ModifierKeyCode::RightShift => 6,
        ModifierKeyCode::RightControl => 7,
        ModifierKeyCode::RightAlt => 8,
        ModifierKeyCode::RightSuper => 9,
        ModifierKeyCode::RightHyper => 10,
        ModifierKeyCode::RightMeta => 11,
        ModifierKeyCode::IsoLevel3Shift => 12,
        ModifierKeyCode::IsoLevel5Shift => 13,
    }
}

/// A key code as two numbers: the variant, in the order of declaration, and
/// what it carries (the function key's number, the character's code point,
/// the media or modifier key's number; else 0).
pub open spec fn spec_key_code_words(code: KeyCode) -> (u32, u32) {
    match code {
        KeyCode::Backspace => (0, 0),
        KeyCode::Enter => (1, 0),
        KeyCode::Left => (2, 0),
        KeyCode::Right => (3, 0),
        KeyCode::Up => (4, 0),
        KeyCode::Down => (5, 0),
        KeyCode::Home => (6, 0),
        KeyCode::End => (7, 0),
        KeyCode::PageUp => (8, 0),
        KeyCode::PageDown => (9, 0),
        KeyCode::Tab => (10, 0),
        KeyCode::BackTab => (11, 0),
        KeyCode::Delete => (12, 0),
        KeyCode::Insert => (13, 0),
        KeyCode::F(n) => (14, n as u32),
        KeyCode::Char(c) => (15, c as u32),
        KeyCode::Null => (16, 0),
        KeyCode::Esc => (17, 0),
        KeyCode::CapsLock => (18, 0),
        KeyCode::ScrollLock => (19, 0),
        KeyCode::NumLock => (20, 0),
        KeyCode::PrintScreen => (21, 0),
        KeyCode::Pause => (22, 0),
        KeyCode::Menu => (23, 0),
        KeyCode::KeypadBegin => (24, 0),
        KeyCode::Media(m) => (25, spec_media_number(m)),
        KeyCode::Modifier(m) => (26, spec_modifier_key_number(m)),
    }
}

#[verifier::when_used_as_spec(spec_key_code_words)]
fn key_code_words(code: KeyCode) -> (r: (u32, u32))
    ensures
        r == spec_key_code_words(code),
{
    match code {
        KeyCode::Backspace => (0, 0),
        KeyCode::Enter => (1, 0),
        KeyCode::Left => (2, 0),
        KeyCode::Right => (3, 0),
        KeyCode::Up => (4, 0),
        KeyCode::Down => (5, 0),
        KeyCode::Home => (6, 0),
        KeyCode::End => (7, 0),
        KeyCode::PageUp => (8, 0),
        KeyCode::PageDown => (9, 0),
        KeyCode::Tab => (10, 0),
        KeyCode::BackTab => (11, 0),
        KeyCode::Delete => (12, 0),
        KeyCode::Insert => (13, 0),
        KeyCode::F(n) => (14, n as u32),
        KeyCode::Char(c) => (15, c as u32),
        KeyCode::Null => (16, 0),
        KeyCode::Esc => (17, 0),
        KeyCode::CapsLock => (18, 0),
        KeyCode::ScrollLock => (19, 0),
        KeyCode::NumLock => (20, 0),
        KeyCode::PrintScreen => (21, 0),
        KeyCode::Pause => (22, 0),
        KeyCode::Menu => (23, 0),
        KeyCode::KeypadBegin => (24, 0),
        KeyCode::Media(m) => (25, media_number(m)),
        KeyCode::Modifier(m) => (26, modifier_key_number(m)),
    }
}

/// The number of a key event kind, in the order of declaration.
pub open spec fn spec_kind_number(k: KeyEventKind) -> u32 {
    match k {
        KeyEventKind::Press => 0,
        KeyEventKind::Repeat => 1,
        KeyEventKind::Release => 2,
    }
}

#[verifier::when_used_as_spec(spec_kind_number)]
fn kind_number(k: KeyEventKind) -> (r: u32)
    ensures
        r == spec_kind_number(k),
{
    match k {
        KeyEventKind::Press => 0,
        KeyEventKind::Repeat => 1,
        KeyEventKind::Release => 2,
    }
}

/// The numbers that hashing a key event feeds to the hasher: those of its
/// canonical form.
pub open spec fn hash_words(e: KeyEvent) -> Seq<u32> {
    let c = canonical(e);
    let (tag, payload) = spec_key_code_words(c.code);
    seq![tag, payload, c.modifiers.bits as u32, spec_kind_number(c.kind), c.state.bits as u32]
}

impl core::hash::Hash for KeyEvent {
    fn hash<H: core::hash::Hasher>(&self, hash_state: &mut H) {
        let e = self.normalize_case();
        let (tag, payload) = key_code_words(e.code);
        let modifiers = e.modifiers.bits as u32;
        let kind = kind_number(e.kind);
        let state = e.state.bits as u32;
        tag.hash(hash_state);
        payload.hash(hash_state);
        modifiers.hash(hash_state);
        kind.hash(hash_state);
        state.hash(hash_state);
    }
}

/// For a letter `c` from `a` to `z`, with any kind and state: `c` with Shift,
/// its upper-case form with Shift, and its upper-case form alone are one key
/// and hash alike; `c` alone is another key than each of them.
pub proof fn lemma_shifted_letter_is_one_key(c: char, kind: KeyEventKind, state: KeyEventState)
    requires
        is_ascii_lower(c),
    ensures
        ({
            let u = ascii_upper(c);
            let lower_shift = KeyEvent { code: KeyCode::Char(c), modifiers: KeyModifiers { bits: 1 }, kind, state };
            let upper_shift = KeyEvent { code: KeyCode::Char(u), modifiers: KeyModifiers { bits: 1 }, kind, state };
            let upper_none = KeyEvent { code: KeyCode::Char(u), modifiers: KeyModifiers { bits: 0 }, kind, state };
            let lower_none = KeyEvent { code: KeyCode::Char(c), modifiers: KeyModifiers { bits: 0 }, kind, state };
            &&& same_key(lower_shift, upper_shift)
            &&& same_key(upper_shift, upper_none)
            &&& same_key(lower_shift, upper_none)
            &&& hash_words(lower_shift) == hash_words(upper_shift)
            &&& hash_words(upper_shift) == hash_words(upper_none)
            &&& !same_key(lower_none, lower_shift)
            &&& !same_key(lower_none, upper_shift)
            &&& !same_key(lower_none, upper_none)
        }),
{
    let u = ascii_upper(c);
    assert(is_ascii_upper(u));
    assert(!is_ascii_upper(c));
    assert((1u8 | 1u8) == 1u8) by (bit_vector);
    assert((0u8 | 1u8) == 1u8) by (bit_vector);
    assert((1u8 & 1u8) == 1u8) by (bit_vector);
    assert((0u8 & 1u8) == 0u8) by (bit_vector);
}

/// A terminal event as callers see it.
#[derive(Debug, PartialOrd, PartialEq, Eq, Clone, Hash)]
pub enum Event {
    /// The terminal gained focus.
    FocusGained,
    /// The terminal lost focus.
    FocusLost,
    /// A key event.
    Key(KeyEvent),
    /// A mouse event.
    Mouse(MouseEvent),
    /// Text pasted while bracketed paste is enabled.
    Paste(String),
    /// The terminal's new size, in columns and rows.
    Resize(u16, u16),
}

} // verus!
