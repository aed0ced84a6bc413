use vstd::prelude::*;

verus! {

/// Carriage return, sent for the Enter key and at the end of each injected line.
pub const CARRIAGE_RETURN: u8 = 0x0d;

/// Interrupt byte (control-C), sent from the control overlay.
pub const INTERRUPT: u8 = 0x03;

/// A key event as read from the terminal.
#[derive(Clone, Copy, Debug, PartialEq, Eq, Structural)]
pub enum KeyInput {
    Char(char),
    Enter,
    Escape,
    /// Any key that has no meaning here.
    Other,
    /// The terminal could not be read.
    Failed,
}

/// The byte that a key stands for in normal capture, if any.
pub open spec fn key_byte(k: KeyInput) -> Option<u8> {
    match k {
        KeyInput::Char(c) => Some(c as u8),
        KeyInput::Enter => Some(CARRIAGE_RETURN),
        _ => None,
    }
}

/// Translates a key pressed outside the overlay into the byte it sends.
pub fn translate_key(k: KeyInput) -> (r: Option<u8>)
    ensures
        r == key_byte(k),
{
    match k {
        KeyInput::Char(c) => Some(c as u8),
        KeyInput::Enter => Some(CARRIAGE_RETURN),
        _ => None,
    }
}

/// Whether keys are translated for the machine or handled by the overlay.
#[derive(Clone, Copy, Debug, PartialEq, Eq, Structural)]
pub enum Mode {
    Capture,
    Menu,
}

/// What the terminal side does in response to one key.
#[derive(Clone, Copy, Debug, PartialEq, Eq, Structural)]
pub enum Action {
    /// Queue this byte for the machine's input port.
    Send(u8),
    /// Clear the screen and show the overlay's choices.
    OpenMenu,
    /// Clear the screen and go back to normal capture.
    CloseMenu,
    /// End the process.
    Quit,
    /// Ask for a file and inject its lines as paced keystrokes.
    Load,
    /// The overlay could not go on: report the error and leave it.
    Abort,
    /// Nothing to do.
    Ignore,
}

/// The overlay's transition on one key: the mode that follows and the action.
pub open spec fn next(mode: Mode, k: KeyInput) -> (Mode, Action) {
    match mode {
        Mode::Capture => match k {
            KeyInput::Escape => (Mode::Menu, Action::OpenMenu),
            _ => match key_byte(k) {
                Some(b) => (Mode::Capture, Action::Send(b)),
                None => (Mode::Capture, Action::Ignore),
            },
        },
        Mode::Menu => match k {
            KeyInput::Escape => (Mode::Capture, Action::CloseMenu),
            KeyInput::Char('Q') => (Mode::Capture, Action::Quit),
            KeyInput::Char('L') => (Mode::Capture, Action::Load),
            KeyInput::Char('C') => (Mode::Menu, Action::Send(INTERRUPT)),
            KeyInput::Failed => (Mode::Capture, Action::Abort),
            _ => (Mode::Menu, Action::Ignore),
        },
    }
}

/// Handles one key in the given mode.
pub fn step(mode: Mode, k: KeyInput) -> (r: (Mode, Action))
    ensures
        r == next(mode, k),
{
    match mode {
        Mode::Capture => match k {
            KeyInput::Escape => (Mode::Menu, Action::OpenMenu),
            _ => match translate_key(k) {
                Some(b) => (Mode::Capture, Action::Send(b)),
                None => (Mode::Capture, Action::Ignore),
            },
        },
        Mode::Menu => match k {
            KeyInput::Escape => (Mode::Capture, Action::CloseMenu),
            KeyInput::Char('Q') => (Mode::Capture, Action::Quit),
            KeyInput::Char('L') => (Mode::Capture, Action::Load),
            KeyInput::Char('C') => (Mode::Menu, Action::Send(INTERRUPT)),
            KeyInput::Failed => (Mode::Capture, Action::Abort),
            _ => (Mode::Menu, Action::Ignore),
        },
    }
}

/// The mode and the actions after handling `keys` in order, from `mode`.
pub open spec fn run(mode: Mode, keys: Seq<KeyInput>) -> (Mode, Seq<Action>)
    decreases keys.len(),
{
    if keys.len() == 0 {
        (mode, seq![])
    } else {
        let (m, acts) = run(mode, keys.drop_last());
        let (m2, a) = next(m, keys.last());
        (m2, acts.push(a))
    }
}

/// The bytes that a sequence of actions queues, in order.
pub open spec fn sent(acts: Seq<Action>) -> Seq<u8>
    decreases acts.len(),
{
    if acts.len() == 0 {
        seq![]
    } else {
        match acts.last() {
            Action::Send(b) => sent(acts.drop_last()).push(b),
            _ => sent(acts.drop_last()),
        }
    }
}

/// The bytes that `keys` stand for, in order, ignored keys left out.
pub open spec fn translated(keys: Seq<KeyInput>) -> Seq<u8>
    decreases keys.len(),
{
    if keys.len() == 0 {
        seq![]
    } else {
        match key_byte(keys.last()) {
            Some(b) => translated(keys.drop_last()).push(b),
            None => translated(keys.drop_last()),
        }
    }
}

/// Keys typed outside the overlay reach the machine in the order typed:
/// without the trigger key, capture never leaves normal mode and queues
/// exactly the translated bytes of the keys, none dropped, added or reordered.
pub proof fn lemma_capture_keeps_order(keys: Seq<KeyInput>)
    requires
        forall|i: int| 0 <= i < keys.len() ==> keys[i] != KeyInput::Escape,
    ensures
        run(Mode::Capture, keys).0 == Mode::Capture,
        sent(run(Mode::Capture, keys).1) == translated(keys),
    decreases keys.len(),
{
    if keys.len() > 0 {
        let prefix = keys.drop_last();
        lemma_capture_keeps_order(prefix);
        let acts = run(Mode::Capture, prefix).1;
        let a = next(Mode::Capture, keys.last()).1;
        assert(acts.push(a).drop_last() == acts);
    }
}

/// Opening the overlay and closing it again with the trigger key, with
/// nothing in between, shows the overlay, clears the screen again and
/// queues nothing: the mode is back to normal capture and the queued bytes
/// are unchanged.
pub proof fn lemma_menu_round_trip(keys: Seq<KeyInput>)
    requires
        run(Mode::Capture, keys).0 == Mode::Capture,
    ensures
        run(Mode::Capture, keys + seq![KeyInput::Escape, KeyInput::Escape]).0 == Mode::Capture,
        run(Mode::Capture, keys + seq![KeyInput::Escape, KeyInput::Escape]).1
            == run(Mode::Capture, keys).1 + seq![Action::OpenMenu, Action::CloseMenu],
        sent(run(Mode::Capture, keys + seq![KeyInput::Escape, KeyInput::Escape]).1)
            == sent(run(Mode::Capture, keys).1),
{
    let once = keys.push(KeyInput::Escape);
    let twice = once.push(KeyInput::Escape);
    assert(keys + seq![KeyInput::Escape, KeyInput::Escape] == twice);
    assert(twice.drop_last() == once);
    assert(once.drop_last() == keys);
    let acts = run(Mode::Capture, keys).1;
    let opened = acts.push(Action::OpenMenu);
    let closed = opened.push(Action::CloseMenu);
    assert(run(Mode::Capture, once) == (Mode::Menu, opened));
    assert(run(Mode::Capture, twice) == (Mode::Capture, closed));
    assert(closed == acts + seq![Action::OpenMenu, Action::CloseMenu]);
    assert(closed.drop_last() == opened);
    assert(opened.drop_last() == acts);
    assert(sent(closed) == sent(opened));
    assert(sent(opened) == sent(acts));
}

} // verus!
