use vstd::prelude::*;

verus! {

/// What a key press means to the timer.
#[derive(Clone, Copy, Debug, PartialEq, Eq, Structural)]
pub enum KeyAction {
    Quit,
    Pause,
    Confirm,
    Idle,
}

/// A key as the terminal reports it, reduced to what the timer tells apart.
#[derive(Clone, Copy, Debug, PartialEq, Eq, Structural)]
pub enum Key {
    Enter,
    Char(char),
    Other,
}

/// The action that a key event stands for, if any: Enter confirms, the space
/// bar pauses, `q` quits; releases, repeats and every other key mean nothing.
pub open spec fn action_of(key: Key, is_press: bool) -> Option<KeyAction> {
    if !is_press {
        Option::None
    } else {
        match key {
            Key::Enter => Option::Some(KeyAction::Confirm),
            Key::Char(c) => if c == ' ' {
                Option::Some(KeyAction::Pause)
            } else if c == 'q' {
                Option::Some(KeyAction::Quit)
            } else {
                Option::None
            },
            Key::Other => Option::None,
        }
    }
}

/// Translates one key event into the action the listener forwards.
pub fn translate_key(key: Key, is_press: bool) -> (r: Option<KeyAction>)
    ensures
        r == action_of(key, is_press),
{
    if !is_press {
        return Option::None;
    }
    match key {
        Key::Enter => Option::Some(KeyAction::Confirm),
        Key::Char(c) => if c == ' ' {
            Option::Some(KeyAction::Pause)
        } else if c == 'q' {
            Option::Some(KeyAction::Quit)
        } else {
            Option::None
        },
        Key::Other => Option::None,
    }
}

/// Whether the listener stops after forwarding `action`: it listens until it
/// has sent a quit.
pub fn stops_listening(action: KeyAction) -> (r: bool)
    ensures
        r == (action == KeyAction::Quit),
{
    match action {
        KeyAction::Quit => true,
        _ => false,
    }
}

} // verus!
