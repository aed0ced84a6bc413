use altair_console::keys::{step, translate_key, Action, KeyInput, Mode, CARRIAGE_RETURN, INTERRUPT};

fn type_keys(mut mode: Mode, keys: &[KeyInput]) -> (Mode, Vec<Action>, Vec<u8>) {
    let mut actions = Vec::new();
    let mut bytes = Vec::new();
    for k in keys {
        let (m, a) = step(mode, *k);
        mode = m;
        if let Action::Send(b) = a {
            bytes.push(b);
        }
        actions.push(a);
    }
    (mode, actions, bytes)
}

#[test]
fn printable_key_sends_its_code() {
    assert_eq!(translate_key(KeyInput::Char('a')), Some(0x61));
    assert_eq!(translate_key(KeyInput::Char('Z')), Some(0x5a));
}

#[test]
fn enter_sends_carriage_return() {
    assert_eq!(translate_key(KeyInput::Enter), Some(0x0d));
    assert_eq!(CARRIAGE_RETURN, 0x0d);
}

#[test]
fn wide_character_keeps_low_byte() {
    assert_eq!(translate_key(KeyInput::Char('\u{e9}')), Some(0xe9));
    assert_eq!(translate_key(KeyInput::Char('\u{10d}')), Some(0x0d));
}

#[test]
fn other_keys_send_nothing() {
    assert_eq!(translate_key(KeyInput::Other), None);
    assert_eq!(translate_key(KeyInput::Escape), None);
    assert_eq!(translate_key(KeyInput::Failed), None);
    assert_eq!(step(Mode::Capture, KeyInput::Other), (Mode::Capture, Action::Ignore));
    assert_eq!(step(Mode::Capture, KeyInput::Failed), (Mode::Capture, Action::Ignore));
}

#[test]
fn capture_keeps_key_order() {
    let keys = [
        KeyInput::Char('R'),
        KeyInput::Other,
        KeyInput::Char('U'),
        KeyInput::Char('N'),
        KeyInput::Enter,
        KeyInput::Char('1'),
    ];
    let (mode, _, bytes) = type_keys(Mode::Capture, &keys);
    assert_eq!(mode, Mode::Capture);
    assert_eq!(bytes, vec![b'R', b'U', b'N', 0x0d, b'1']);
}

#[test]
fn trigger_key_opens_menu() {
    assert_eq!(step(Mode::Capture, KeyInput::Escape), (Mode::Menu, Action::OpenMenu));
}

#[test]
fn menu_round_trip_sends_nothing() {
    let keys = [KeyInput::Char('A'), KeyInput::Escape, KeyInput::Escape, KeyInput::Char('B')];
    let (mode, actions, bytes) = type_keys(Mode::Capture, &keys);
    assert_eq!(mode, Mode::Capture);
    assert_eq!(
        actions,
        vec![Action::Send(b'A'), Action::OpenMenu, Action::CloseMenu, Action::Send(b'B')]
    );
    assert_eq!(bytes, vec![b'A', b'B']);
}

#[test]
fn interrupt_from_menu_keeps_menu() {
    assert_eq!(INTERRUPT, 0x03);
    assert_eq!(step(Mode::Menu, KeyInput::Char('C')), (Mode::Menu, Action::Send(0x03)));
    let keys = [KeyInput::Escape, KeyInput::Char('C'), KeyInput::Char('C')];
    let (mode, actions, bytes) = type_keys(Mode::Capture, &keys);
    assert_eq!(mode, Mode::Menu);
    assert!(!actions.contains(&Action::Quit));
    assert_eq!(bytes, vec![0x03, 0x03]);
}

#[test]
fn menu_quit_and_load() {
    assert_eq!(step(Mode::Menu, KeyInput::Char('Q')), (Mode::Capture, Action::Quit));
    assert_eq!(step(Mode::Menu, KeyInput::Char('L')), (Mode::Capture, Action::Load));
}

#[test]
fn menu_ignores_other_keys() {
    assert_eq!(step(Mode::Menu, KeyInput::Char('q')), (Mode::Menu, Action::Ignore));
    assert_eq!(step(Mode::Menu, KeyInput::Enter), (Mode::Menu, Action::Ignore));
    assert_eq!(step(Mode::Menu, KeyInput::Other), (Mode::Menu, Action::Ignore));
}

#[test]
fn menu_read_failure_aborts() {
    assert_eq!(step(Mode::Menu, KeyInput::Failed), (Mode::Capture, Action::Abort));
}
