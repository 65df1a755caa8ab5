use vstd::prelude::*;
use vstd::string::StringExecFns;
use crate::event::KeyboardEnhancementFlags;

verus! {

/// A control sequence: escape, `[`, then `body`.
pub open spec fn csi(body: Seq<char>) -> Seq<char> {
    seq!['\x1b', '['] + body
}

/// The decimal digit for `d`, which is below ten.
pub open spec fn digit_char(d: nat) -> char {
    if d == 0 {
        '0'
    } else if d == 1 {
        '1'
    } else if d == 2 {
        '2'
    } else if d == 3 {
        '3'
    } else if d == 4 {
        '4'
    } else if d == 5 {
        '5'
    } else if d == 6 {
        '6'
    } else if d == 7 {
        '7'
    } else if d == 8 {
        '8'
    } else {
        '9'
    }
}

/// `n` written in decimal, without leading zeros.
pub open spec fn decimal(n: nat) -> Seq<char>
    decreases n,
{
    if n < 10 {
        seq![digit_char(n)]
    } else {
        decimal(n / 10).push(digit_char(n % 10))
    }
}

/// The sequence that sets (`on`) or resets a private terminal mode:
/// `CSI ? mode h` or `CSI ? mode l`.
pub open spec fn mode_switch(mode: u16, on: bool) -> Seq<char> {
    csi(seq!['?'] + decimal(mode as nat) + seq![if on { 'h' } else { 'l' }])
}

/// The sequences for a list of mode switches, one after another.
pub open spec fn switches_text(switches: Seq<(u16, bool)>) -> Seq<char>
    decreases switches.len(),
{
    if switches.len() == 0 {
        Seq::empty()
    } else {
        switches_text(switches.drop_last()) + mode_switch(switches.last().0, switches.last().1)
    }
}

fn digit_str(d: u16) -> (r: &'static str)
    requires
        d < 10,
    ensures
        r@ == seq![digit_char(d as nat)],
{
    if d == 0 {
        proof { reveal_strlit("0"); }
        "0"
    } else if d == 1 {
        proof { reveal_strlit("1"); }
        "1"
    } else if d == 2 {
        proof { reveal_strlit("2"); }
        "2"
    } else if d == 3 {
        proof { reveal_strlit("3"); }
        "3"
    } else if d == 4 {
        proof { reveal_strlit("4"); }
        "4"
    } else if d == 5 {
        proof { reveal_strlit("5"); }
        "5"
    } else if d == 6 {
        proof { reveal_strlit("6"); }
        "6"
    } else if d == 7 {
        proof { reveal_strlit("7"); }
        "7"
    } else if d == 8 {
        proof { reveal_strlit("8"); }
        "8"
    } else {
        proof { reveal_strlit("9"); }
        "9"
    }
}

/// Appends `n` in decimal.
pub fn write_decimal(out: &mut String, n: u16)
    ensures
        final(out)@ == old(out)@ + decimal(n as nat),
    decreases n,
{
    if n >= 10 {
        write_decimal(out, n / 10);
    }
    out.append(digit_str(n % 10));
    assert(out@ =~= old(out)@ + decimal(n as nat));
}

/// Appends the sequence that sets (`on`) or resets private mode `mode`.
pub fn write_mode_switch(out: &mut String, mode: u16, on: bool)
    ensures
        final(out)@ == old(out)@ + mode_switch(mode, on),
{
    proof { reveal_strlit("\x1b[?"); reveal_strlit("h"); reveal_strlit("l"); }
    out.append("\x1b[?");
    write_decimal(out, mode);
    if on {
        out.append("h");
    } else {
        out.append("l");
    }
    assert(out@ =~= old(out)@ + mode_switch(mode, on));
}

/// Appends the sequences for `modes`, each switched as `on` says.
fn write_mode_switches(out: &mut String, modes: &[u16], on: bool)
    ensures
        final(out)@ == old(out)@ + switches_text(modes@.map_values(|m: u16| (m, on))),
{
    let mut i: usize = 0;
    while i < modes.len()
        invariant
            i <= modes@.len(),
            out@ == old(out)@ + switches_text(modes@.take(i as int).map_values(|m: u16| (m, on))),
        decreases modes@.len() - i,
    {
        write_mode_switch(out, modes[i], on);
        proof {
            let before = modes@.take(i as int).map_values(|m: u16| (m, on));
            let after = modes@.take(i as int + 1).map_values(|m: u16| (m, on));
            assert(after.drop_last() =~= before);
        }
        i = i + 1;
    }
    assert(modes@.take(modes@.len() as int) =~= modes@);
}

/// The terminal modes that mouse capture turns on, in order: normal
/// tracking, button-event tracking, any-event tracking, RXVT coordinates,
/// SGR coordinates.
pub open spec fn mouse_modes() -> Seq<u16> {
    seq![1000, 1002, 1003, 1015, 1006]
}

/// The switches that enable mouse capture: each mouse mode on, in order.
pub open spec fn mouse_enable_switches() -> Seq<(u16, bool)> {
    mouse_modes().map_values(|m: u16| (m, true))
}

/// The switches that disable mouse capture: each mouse mode off, in
/// reverse order.
pub open spec fn mouse_disable_switches() -> Seq<(u16, bool)> {
    mouse_modes().reverse().map_values(|m: u16| (m, false))
}

/// The platform backend a command is carried out on.
#[derive(Debug, Clone, Copy, PartialEq, Eq, Structural)]
pub enum Backend {
    /// A terminal that reads escape sequences.
    Ansi,
    /// A Windows console that reads escape sequences, but takes some
    /// commands only as native calls.
    WindowsAnsi,
    /// A legacy Windows console, driven by native calls alone.
    LegacyConsole,
}

/// A native call of the legacy console that carries out a command.
#[derive(Debug, Clone, Copy, PartialEq, Eq, Structural)]
pub enum NativeCall {
    EnableMouseCapture,
    DisableMouseCapture,
    /// Nothing has to be done: the console already behaves as asked.
    Nothing,
}

/// A command that the legacy console cannot carry out.
#[derive(Debug, Clone, Copy, PartialEq, Eq, Structural)]
pub enum Unsupported {
    /// Keyboard progressive enhancement has no native equivalent.
    KeyboardEnhancement,
    /// Bracketed paste has no native equivalent.
    BracketedPaste,
}

/// Whether a command is written as escape text on `backend`: always on a
/// terminal, never on a legacy console, and on a Windows console that reads
/// escape text unless the command is taken as a native call alone there.
pub open spec fn ansi_supported(backend: Backend, native_only: bool) -> bool {
    match backend {
        Backend::Ansi => true,
        Backend::WindowsAnsi => !native_only,
        Backend::LegacyConsole => false,
    }
}

/// An operation that configures a terminal, as escape text or as a native call.
pub trait Command {
    /// The escape text of the command.
    spec fn ansi(&self) -> Seq<char>;

    /// What the command asks of the legacy console.
    spec fn native(&self) -> Result<NativeCall, Unsupported>;

    /// Whether Windows consoles take the command as a native call alone,
    /// even where they read escape text.
    spec fn native_only(&self) -> bool;

    /// Appends the command's escape text.
    fn write_ansi(&self, out: &mut String)
        ensures
            final(out)@ == old(out)@ + self.ansi(),
    ;

    /// The native call that carries out the command on the legacy console,
    /// or why there is none.
    fn execute_winapi(&self) -> (r: Result<NativeCall, Unsupported>)
        ensures
            r == self.native(),
    ;

    /// Whether the command is written as escape text on `backend`.
    fn is_ansi_code_supported(&self, backend: Backend) -> (r: bool)
        ensures
            r == ansi_supported(backend, self.native_only()),
    ;
}

/// Enables mouse event capturing.
#[derive(Debug, Clone, Copy, PartialEq, Eq, Structural)]
pub struct EnableMouseCapture;

impl Command for EnableMouseCapture {
    open spec fn ansi(&self) -> Seq<char> {
        switches_text(mouse_enable_switches())
    }

    open spec fn native(&self) -> Result<NativeCall, Unsupported> {
        Ok(NativeCall::EnableMouseCapture)
    }

    open spec fn native_only(&self) -> bool {
        true
    }

    fn write_ansi(&self, out: &mut String) {
        let modes: [u16; 5] = [1000, 1002, 1003, 1015, 1006];
        assert(modes@ =~= mouse_modes());
        write_mode_switches(out, &modes, true);
    }

    fn execute_winapi(&self) -> (r: Result<NativeCall, Unsupported>) {
        Ok(NativeCall::EnableMouseCapture)
    }

    fn is_ansi_code_supported(&self, backend: Backend) -> (r: bool) {
        backend == Backend::Ansi
    }
}

/// Disables mouse event capturing: the switches of `EnableMouseCapture`
/// undone in reverse order.
#[derive(Debug, Clone, Copy, PartialEq, Eq, Structural)]
pub struct DisableMouseCapture;

impl Command for DisableMouseCapture {
    open spec fn ansi(&self) -> Seq<char> {
        switches_text(mouse_disable_switches())
    }

    open spec fn native(&self) -> Result<NativeCall, Unsupported> {
        Ok(NativeCall::DisableMouseCapture)
    }

    open spec fn native_only(&self) -> bool {
        true
    }

    fn write_ansi(&self, out: &mut String) {
        let modes: [u16; 5] = [1006, 1015, 1003, 1002, 1000];
        assert(modes@ =~= mouse_modes().reverse());
        write_mode_switches(out, &modes, false);
    }

    fn execute_winapi(&self) -> (r: Result<NativeCall, Unsupported>) {
        Ok(NativeCall::DisableMouseCapture)
    }

    fn is_ansi_code_supported(&self, backend: Backend) -> (r: bool) {
        backend == Backend::Ansi
    }
}

} // verus!

verus! {

/// Pushes keyboard enhancement flags onto the terminal's stack:
/// `CSI > flags u`, with the flags' bits in decimal.
#[derive(Debug, Clone, Copy, PartialEq, Eq, Structural)]
pub struct PushKeyboardEnhancementFlags(pub KeyboardEnhancementFlags);

impl Command for PushKeyboardEnhancementFlags {
    open spec fn ansi(&self) -> Seq<char> {
        csi(seq!['>'] + decimal(self.0.bits as nat) + seq!['u'])
    }

    open spec fn native(&self) -> Result<NativeCall, Unsupported> {
        Err(Unsupported::KeyboardEnhancement)
    }

    open spec fn native_only(&self) -> bool {
        true
    }

    fn write_ansi(&self, out: &mut String) {
        proof { reveal_strlit("\x1b[>"); reveal_strlit("u"); }
        out.append("\x1b[>");
        write_decimal(out, self.0.bits() as u16);
        out.append("u");
        assert(out@ =~= old(out)@ + self.ansi());
    }

    fn execute_winapi(&self) -> (r: Result<NativeCall, Unsupported>) {
        Err(Unsupported::KeyboardEnhancement)
    }

    fn is_ansi_code_supported(&self, backend: Backend) -> (r: bool) {
        backend == Backend::Ansi
    }
}

/// Pops one level of keyboard enhancement flags: `CSI < 1 u`.
#[derive(Debug, Clone, Copy, PartialEq, Eq, Structural)]
pub struct PopKeyboardEnhancementFlags;

impl Command for PopKeyboardEnhancementFlags {
    open spec fn ansi(&self) -> Seq<char> {
        csi(seq!['<', '1', 'u'])
    }

    open spec fn native(&self) -> Result<NativeCall, Unsupported> {
        Err(Unsupported::KeyboardEnhancement)
    }

    open spec fn native_only(&self) -> bool {
        true
    }

    fn write_ansi(&self, out: &mut String) {
        proof { reveal_strlit("\x1b[<1u"); }
        out.append("\x1b[<1u");
        assert(out@ =~= old(out)@ + self.ansi());
    }

    fn execute_winapi(&self) -> (r: Result<NativeCall, Unsupported>) {
        Err(Unsupported::KeyboardEnhancement)
    }

    fn is_ansi_code_supported(&self, backend: Backend) -> (r: bool) {
        backend == Backend::Ansi
    }
}

/// Enables focus events: private mode 1004 on.
#[derive(Debug, Clone, Copy, PartialEq, Eq, Structural)]
pub struct EnableFocusChange;

impl Command for EnableFocusChange {
    open spec fn ansi(&self) -> Seq<char> {
        mode_switch(1004, true)
    }

    /// Focus events are always reported by the legacy console.
    open spec fn native(&self) -> Result<NativeCall, Unsupported> {
        Ok(NativeCall::Nothing)
    }

    open spec fn native_only(&self) -> bool {
        false
    }

    fn write_ansi(&self, out: &mut String) {
        write_mode_switch(out, 1004, true);
    }

    fn execute_winapi(&self) -> (r: Result<NativeCall, Unsupported>) {
        Ok(NativeCall::Nothing)
    }

    fn is_ansi_code_supported(&self, backend: Backend) -> (r: bool) {
        backend != Backend::LegacyConsole
    }
}

/// Disables focus events: private mode 1004 off.
#[derive(Debug, Clone, Copy, PartialEq, Eq, Structural)]
pub struct DisableFocusChange;

impl Command for DisableFocusChange {
    open spec fn ansi(&self) -> Seq<char> {
        mode_switch(1004, false)
    }

    /// Focus events cannot be turned off on the legacy console.
    open spec fn native(&self) -> Result<NativeCall, Unsupported> {
        Ok(NativeCall::Nothing)
    }

    open spec fn native_only(&self) -> bool {
        false
    }

    fn write_ansi(&self, out: &mut String) {
        write_mode_switch(out, 1004, false);
    }

    fn execute_winapi(&self) -> (r: Result<NativeCall, Unsupported>) {
        Ok(NativeCall::Nothing)
    }

    fn is_ansi_code_supported(&self, backend: Backend) -> (r: bool) {
        backend != Backend::LegacyConsole
    }
}

/// Enables bracketed paste: private mode 2004 on.
#[derive(Debug, Clone, Copy, PartialEq, Eq, Structural)]
pub struct EnableBracketedPaste;

impl Command for EnableBracketedPaste {
    open spec fn ansi(&self) -> Seq<char> {
        mode_switch(2004, true)
    }

    open spec fn native(&self) -> Result<NativeCall, Unsupported> {
        Err(Unsupported::BracketedPaste)
    }

    open spec fn native_only(&self) -> bool {
        false
    }

    fn write_ansi(&self, out: &mut String) {
        write_mode_switch(out, 2004, true);
    }

    fn execute_winapi(&self) -> (r: Result<NativeCall, Unsupported>) {
        Err(Unsupported::BracketedPaste)
    }

    fn is_ansi_code_supported(&self, backend: Backend) -> (r: bool) {
        backend != Backend::LegacyConsole
    }
}

/// Disables bracketed paste: private mode 2004 off.
#[derive(Debug, Clone, Copy, PartialEq, Eq, Structural)]
pub struct DisableBracketedPaste;

impl Command for DisableBracketedPaste {
    open spec fn ansi(&self) -> Seq<char> {
        mode_switch(2004, false)
    }

    /// Nothing to undo on the legacy console.
    open spec fn native(&self) -> Result<NativeCall, Unsupported> {
        Ok(NativeCall::Nothing)
    }

    open spec fn native_only(&self) -> bool {
        false
    }

    fn write_ansi(&self, out: &mut String) {
        write_mode_switch(out, 2004, false);
    }

    fn execute_winapi(&self) -> (r: Result<NativeCall, Unsupported>) {
        Ok(NativeCall::Nothing)
    }

    fn is_ansi_code_supported(&self, backend: Backend) -> (r: bool) {
        backend != Backend::LegacyConsole
    }
}

/// How a command is to be carried out.
#[derive(Debug, Clone, PartialEq, Eq)]
pub enum Dispatch {
    /// Write this escape text to the terminal.
    Ansi(String),
    /// Make this native call.
    Native(NativeCall),
}

/// Decides how `command` is carried out on `backend`: as its escape text
/// where the backend takes it, else as its native call, which fails where
/// the backend has none.
pub fn dispatch<C: Command>(command: &C, backend: Backend) -> (r: Result<Dispatch, Unsupported>)
    ensures
        ansi_supported(backend, command.native_only()) ==> (r matches Ok(Dispatch::Ansi(text))
            && text@ == command.ansi()),
        !ansi_supported(backend, command.native_only()) ==> match command.native() {
            Ok(call) => r == Ok::<Dispatch, Unsupported>(Dispatch::Native(call)),
            Err(e) => r == Err::<Dispatch, Unsupported>(e),
        },
{
    if command.is_ansi_code_supported(backend) {
        let mut text = String::new();
        command.write_ansi(&mut text);
        assert(text@ =~= command.ansi());
        Ok(Dispatch::Ansi(text))
    } else {
        match command.execute_winapi() {
            Ok(call) => Ok(Dispatch::Native(call)),
            Err(e) => Err(e),
        }
    }
}

/// The terminal modes that are on after applying `switches` to the modes in
/// `on`, one after another.
pub open spec fn apply_switches(on: Set<u16>, switches: Seq<(u16, bool)>) -> Set<u16>
    decreases switches.len(),
{
    if switches.len() == 0 {
        on
    } else {
        let rest = apply_switches(on, switches.drop_last());
        let (mode, set) = switches.last();
        if set { rest.insert(mode) } else { rest.remove(mode) }
    }
}

/// Disabling mouse capture undoes enabling it: its switch at `i` resets the
/// mode that the enabling switch at `4 - i` set, and applying the two in turn
/// to any set of modes leaves that set without the mouse modes (and so as it
/// was when none of them was on).
pub proof fn lemma_mouse_capture_round_trip(on: Set<u16>)
    ensures
        mouse_enable_switches().len() == 5,
        mouse_disable_switches().len() == 5,
        forall|i: int| 0 <= i < 5 ==> #[trigger] mouse_disable_switches()[i] == (mouse_enable_switches()[4 - i].0, false),
        forall|i: int| 0 <= i < 5 ==> #[trigger] mouse_enable_switches()[i].1,
        apply_switches(apply_switches(on, mouse_enable_switches()), mouse_disable_switches())
            == on.difference(mouse_modes().to_set()),
{
    let en = mouse_enable_switches();
    let dis = mouse_disable_switches();
    assert(en =~= seq![(1000u16, true), (1002u16, true), (1003u16, true), (1015u16, true), (1006u16, true)]);
    assert(dis =~= seq![(1006u16, false), (1015u16, false), (1003u16, false), (1002u16, false), (1000u16, false)]);
    reveal_with_fuel(apply_switches, 6);
    assert(en.drop_last().drop_last().drop_last().drop_last().drop_last() =~= Seq::<(u16, bool)>::empty());
    assert(dis.drop_last().drop_last().drop_last().drop_last().drop_last() =~= Seq::<(u16, bool)>::empty());
    let mid = apply_switches(on, en);
    assert(mid =~= on.insert(1000).insert(1002).insert(1003).insert(1015).insert(1006));
    assert(mouse_modes().to_set() =~= set![1000u16, 1002, 1003, 1015, 1006]);
    assert(apply_switches(mid, dis) =~= on.difference(mouse_modes().to_set()));
}

} // verus!
