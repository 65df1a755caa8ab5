use term_events::command::{
    dispatch, Backend, Command, DisableBracketedPaste, DisableFocusChange, DisableMouseCapture,
    Dispatch, EnableBracketedPaste, EnableFocusChange, EnableMouseCapture, NativeCall,
    PopKeyboardEnhancementFlags, PushKeyboardEnhancementFlags, Unsupported,
};
use term_events::event::KeyboardEnhancementFlags;

fn ansi<C: Command>(c: &C) -> String {
    let mut out = String::new();
    c.write_ansi(&mut out);
    out
}

#[test]
fn push_disambiguate_and_event_types() {
    let flags = KeyboardEnhancementFlags::disambiguate_escape_codes()
        .union(KeyboardEnhancementFlags::report_event_types());
    assert_eq!(flags.bits(), 3);
    assert_eq!(ansi(&PushKeyboardEnhancementFlags(flags)), "\x1b[>3u");
}

#[test]
fn push_multi_digit_flags() {
    let flags = KeyboardEnhancementFlags::report_all_keys_as_escape_codes()
        .union(KeyboardEnhancementFlags::report_alternate_keys());
    assert_eq!(ansi(&PushKeyboardEnhancementFlags(flags)), "\x1b[>12u");
    assert_eq!(ansi(&PushKeyboardEnhancementFlags(KeyboardEnhancementFlags::empty())), "\x1b[>0u");
}

#[test]
fn pop_keyboard_enhancement() {
    assert_eq!(ansi(&PopKeyboardEnhancementFlags), "\x1b[<1u");
}

#[test]
fn mouse_capture_sequences_pair_in_reverse() {
    assert_eq!(
        ansi(&EnableMouseCapture),
        "\x1b[?1000h\x1b[?1002h\x1b[?1003h\x1b[?1015h\x1b[?1006h"
    );
    assert_eq!(
        ansi(&DisableMouseCapture),
        "\x1b[?1006l\x1b[?1015l\x1b[?1003l\x1b[?1002l\x1b[?1000l"
    );
}

#[test]
fn focus_and_paste_sequences() {
    assert_eq!(ansi(&EnableFocusChange), "\x1b[?1004h");
    assert_eq!(ansi(&DisableFocusChange), "\x1b[?1004l");
    assert_eq!(ansi(&EnableBracketedPaste), "\x1b[?2004h");
    assert_eq!(ansi(&DisableBracketedPaste), "\x1b[?2004l");
}

#[test]
fn write_ansi_appends() {
    let mut out = String::from("x");
    EnableFocusChange.write_ansi(&mut out);
    assert_eq!(out, "x\x1b[?1004h");
}

#[test]
fn native_calls_and_unsupported_errors() {
    assert_eq!(EnableMouseCapture.execute_winapi(), Ok(NativeCall::EnableMouseCapture));
    assert_eq!(DisableMouseCapture.execute_winapi(), Ok(NativeCall::DisableMouseCapture));
    assert_eq!(
        PushKeyboardEnhancementFlags(KeyboardEnhancementFlags::empty()).execute_winapi(),
        Err(Unsupported::KeyboardEnhancement)
    );
    assert_eq!(PopKeyboardEnhancementFlags.execute_winapi(), Err(Unsupported::KeyboardEnhancement));
    assert_eq!(EnableFocusChange.execute_winapi(), Ok(NativeCall::Nothing));
    assert_eq!(DisableFocusChange.execute_winapi(), Ok(NativeCall::Nothing));
    assert_eq!(EnableBracketedPaste.execute_winapi(), Err(Unsupported::BracketedPaste));
    assert_eq!(DisableBracketedPaste.execute_winapi(), Ok(NativeCall::Nothing));
}

#[test]
fn ansi_support_by_backend() {
    assert!(EnableMouseCapture.is_ansi_code_supported(Backend::Ansi));
    assert!(!EnableMouseCapture.is_ansi_code_supported(Backend::WindowsAnsi));
    assert!(!EnableMouseCapture.is_ansi_code_supported(Backend::LegacyConsole));
    assert!(!PopKeyboardEnhancementFlags.is_ansi_code_supported(Backend::WindowsAnsi));
    assert!(EnableFocusChange.is_ansi_code_supported(Backend::WindowsAnsi));
    assert!(!EnableFocusChange.is_ansi_code_supported(Backend::LegacyConsole));
    assert!(DisableBracketedPaste.is_ansi_code_supported(Backend::Ansi));
}

#[test]
fn dispatch_picks_text_or_native_call() {
    assert_eq!(
        dispatch(&EnableMouseCapture, Backend::LegacyConsole),
        Ok(Dispatch::Native(NativeCall::EnableMouseCapture))
    );
    assert_eq!(
        dispatch(&PopKeyboardEnhancementFlags, Backend::Ansi),
        Ok(Dispatch::Ansi(String::from("\x1b[<1u")))
    );
    assert_eq!(
        dispatch(&PopKeyboardEnhancementFlags, Backend::LegacyConsole),
        Err(Unsupported::KeyboardEnhancement)
    );
    assert_eq!(
        dispatch(&DisableFocusChange, Backend::WindowsAnsi),
        Ok(Dispatch::Ansi(String::from("\x1b[?1004l")))
    );
    assert_eq!(
        dispatch(&DisableFocusChange, Backend::LegacyConsole),
        Ok(Dispatch::Native(NativeCall::Nothing))
    );
    assert_eq!(
        dispatch(&EnableBracketedPaste, Backend::LegacyConsole),
        Err(Unsupported::BracketedPaste)
    );
}
