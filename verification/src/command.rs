//! The commands the editor understands, and how key presses and terminal
//! events are read as commands.

use crate::size::Size;
use std::convert::TryFrom;
use vstd::prelude::*;
use vstd::std_specs::convert::TryFromSpecImpl;

verus! {

/// No modifier key is held.
pub const MODIFIERS_NONE: u8 = 0;

/// Shift alone is held.
pub const MODIFIERS_SHIFT: u8 = 1;

/// Control alone is held.
pub const MODIFIERS_CONTROL: u8 = 2;

/// The key that was pressed.
#[derive(Clone, Copy, Debug, PartialEq, Eq, Structural)]
pub enum KeyCode {
    Backspace,
    Enter,
    Left,
    Right,
    Up,
    Down,
    Home,
    End,
    PageUp,
    PageDown,
    Tab,
    Delete,
    Esc,
    /// A key that stands for a character.
    Char(char),
    /// Any other key.
    Other,
}

/// What happened to the key.
#[derive(Clone, Copy, Debug, PartialEq, Eq, Structural)]
pub enum KeyEventKind {
    Press,
    Repeat,
    Release,
}

/// A key event: the key, the modifier keys held with it as a set of bits
/// (shift is 1, control is 2, others are higher bits), and what happened
/// to the key.
#[derive(Clone, Copy, Debug, PartialEq, Eq, Structural)]
pub struct KeyEvent {
    pub code: KeyCode,
    pub modifiers: u8,
    pub kind: KeyEventKind,
}

/// What the terminal reports.
#[derive(Clone, Copy, Debug, PartialEq, Eq, Structural)]
pub enum Event {
    /// A key was pressed.
    Key(KeyEvent),
    /// The terminal now has this many columns and rows.
    Resize(u16, u16),
    /// Anything else.
    Other,
}

/// Why an event is no command.
#[derive(Clone, Copy, Debug, PartialEq, Eq, Structural)]
pub enum DecodeError {
    /// The key, pressed without modifiers, means nothing here.
    UnsupportedCode(KeyCode),
    /// The key means nothing with these modifiers.
    UnsupportedKey(KeyEvent),
    /// The key means nothing together with control.
    UnsupportedControl(KeyCode),
    /// The event is neither a key press nor a resize.
    UnsupportedEvent,
}

/// Where to move the caret.
#[derive(Clone, Copy, Debug, PartialEq, Eq, Structural)]
pub enum Move {
    PageUp,
    PageDown,
    StartOfLine,
    EndOfLine,
    Up,
    Left,
    Right,
    Down,
}

impl Move {
    /// The movement a key press asks for: the arrow and paging keys,
    /// without modifiers.
    pub open spec fn decode(event: KeyEvent) -> Result<Move, DecodeError> {
        if event.modifiers == MODIFIERS_NONE {
            match event.code {
                KeyCode::Up => Ok(Move::Up),
                KeyCode::Down => Ok(Move::Down),
                KeyCode::Left => Ok(Move::Left),
                KeyCode::Right => Ok(Move::Right),
                KeyCode::PageDown => Ok(Move::PageDown),
                KeyCode::PageUp => Ok(Move::PageUp),
                KeyCode::Home => Ok(Move::StartOfLine),
                KeyCode::End => Ok(Move::EndOfLine),
                _ => Err(DecodeError::UnsupportedCode(event.code)),
            }
        } else {
            Err(DecodeError::UnsupportedKey(event))
        }
    }
}

impl TryFrom<KeyEvent> for Move {
    type Error = DecodeError;

    fn try_from(event: KeyEvent) -> (result: Result<Move, DecodeError>) {
        if event.modifiers == MODIFIERS_NONE {
            match event.code {
                KeyCode::Up => Ok(Move::Up),
                KeyCode::Down => Ok(Move::Down),
                KeyCode::Left => Ok(Move::Left),
                KeyCode::Right => Ok(Move::Right),
                KeyCode::PageDown => Ok(Move::PageDown),
                KeyCode::PageUp => Ok(Move::PageUp),
                KeyCode::Home => Ok(Move::StartOfLine),
                KeyCode::End => Ok(Move::EndOfLine),
                _ => Err(DecodeError::UnsupportedCode(event.code)),
            }
        } else {
            Err(DecodeError::UnsupportedKey(event))
        }
    }
}

impl TryFromSpecImpl<KeyEvent> for Move {
    open spec fn obeys_try_from_spec() -> bool {
        true
    }

    open spec fn try_from_spec(event: KeyEvent) -> Result<Move, DecodeError> {
        Move::decode(event)
    }
}

/// How to change the text at the caret.
#[derive(Clone, Copy, Debug, PartialEq, Eq, Structural)]
pub enum Edit {
    Insert(char),
    InsertNewline,
    Delete,
    DeleteBackward,
}

impl Edit {
    /// The edit a key press asks for: a character, with or without shift,
    /// and tab, enter, backspace and delete without modifiers.
    pub open spec fn decode(event: KeyEvent) -> Result<Edit, DecodeError> {
        let plain = event.modifiers == MODIFIERS_NONE;
        match event.code {
            KeyCode::Char(character) if plain || event.modifiers == MODIFIERS_SHIFT => Ok(
                Edit::Insert(character),
            ),
            KeyCode::Tab if plain => Ok(Edit::Insert('\t')),
            KeyCode::Enter if plain => Ok(Edit::InsertNewline),
            KeyCode::Backspace if plain => Ok(Edit::DeleteBackward),
            KeyCode::Delete if plain => Ok(Edit::Delete),
            _ => Err(DecodeError::UnsupportedKey(event)),
        }
    }
}

impl TryFrom<KeyEvent> for Edit {
    type Error = DecodeError;

    fn try_from(event: KeyEvent) -> (result: Result<Edit, DecodeError>) {
        let plain = event.modifiers == MODIFIERS_NONE;
        match event.code {
            KeyCode::Char(character) if plain || event.modifiers == MODIFIERS_SHIFT => Ok(
                Edit::Insert(character),
            ),
            KeyCode::Tab if plain => Ok(Edit::Insert('\t')),
            KeyCode::Enter if plain => Ok(Edit::InsertNewline),
            KeyCode::Backspace if plain => Ok(Edit::DeleteBackward),
            KeyCode::Delete if plain => Ok(Edit::Delete),
            _ => Err(DecodeError::UnsupportedKey(event)),
        }
    }
}

impl TryFromSpecImpl<KeyEvent> for Edit {
    open spec fn obeys_try_from_spec() -> bool {
        true
    }

    open spec fn try_from_spec(event: KeyEvent) -> Result<Edit, DecodeError> {
        Edit::decode(event)
    }
}

/// What to do with the editor itself.
#[derive(Clone, Copy, Debug, PartialEq, Eq, Structural)]
pub enum System {
    Save,
    Resize(Size),
    Quit,
    Dismiss,
}

impl System {
    /// The system command a key press asks for: control with `q` or `s`,
    /// or escape without modifiers.
    pub open spec fn decode(event: KeyEvent) -> Result<System, DecodeError> {
        if event.modifiers == MODIFIERS_CONTROL {
            match event.code {
                KeyCode::Char('q') => Ok(System::Quit),
                KeyCode::Char('s') => Ok(System::Save),
                _ => Err(DecodeError::UnsupportedControl(event.code)),
            }
        } else if event.modifiers == MODIFIERS_NONE && event.code == KeyCode::Esc {
            Ok(System::Dismiss)
        } else {
            Err(DecodeError::UnsupportedKey(event))
        }
    }
}

impl TryFrom<KeyEvent> for System {
    type Error = DecodeError;

    fn try_from(event: KeyEvent) -> (result: Result<System, DecodeError>) {
        if event.modifiers == MODIFIERS_CONTROL {
            match event.code {
                KeyCode::Char('q') => Ok(System::Quit),
                KeyCode::Char('s') => Ok(System::Save),
                _ => Err(DecodeError::UnsupportedControl(event.code)),
            }
        } else if event.modifiers == MODIFIERS_NONE && event.code == KeyCode::Esc {
            Ok(System::Dismiss)
        } else {
            Err(DecodeError::UnsupportedKey(event))
        }
    }
}

impl TryFromSpecImpl<KeyEvent> for System {
    open spec fn obeys_try_from_spec() -> bool {
        true
    }

    open spec fn try_from_spec(event: KeyEvent) -> Result<System, DecodeError> {
        System::decode(event)
    }
}

/// A command: a movement, an edit, or a system command.
#[derive(Clone, Copy, Debug, PartialEq, Eq, Structural)]
pub enum Command {
    Move(Move),
    Edit(Edit),
    System(System),
}

impl Command {
    /// The command a key press asks for: an edit if it is one, else a
    /// movement if it is one, else a system command.
    pub open spec fn decode_key(event: KeyEvent) -> Result<Command, DecodeError> {
        match Edit::decode(event) {
            Ok(edit) => Ok(Command::Edit(edit)),
            Err(_) => match Move::decode(event) {
                Ok(movement) => Ok(Command::Move(movement)),
                Err(_) => match System::decode(event) {
                    Ok(system) => Ok(Command::System(system)),
                    Err(_) => Err(DecodeError::UnsupportedKey(event)),
                },
            },
        }
    }

    /// The command an event asks for. A resize always is one.
    pub open spec fn decode(event: Event) -> Result<Command, DecodeError> {
        match event {
            Event::Key(key_event) => Command::decode_key(key_event),
            Event::Resize(width, height) => Ok(
                Command::System(
                    System::Resize(Size { height: height as usize, width: width as usize }),
                ),
            ),
            Event::Other => Err(DecodeError::UnsupportedEvent),
        }
    }
}

impl TryFrom<Event> for Command {
    type Error = DecodeError;

    fn try_from(event: Event) -> (result: Result<Command, DecodeError>) {
        match event {
            Event::Key(key_event) => {
                if let Ok(edit) = Edit::try_from(key_event) {
                    Ok(Command::Edit(edit))
                } else if let Ok(movement) = Move::try_from(key_event) {
                    Ok(Command::Move(movement))
                } else if let Ok(system) = System::try_from(key_event) {
                    Ok(Command::System(system))
                } else {
                    Err(DecodeError::UnsupportedKey(key_event))
                }
            },
            Event::Resize(width, height) => Ok(
                Command::System(
                    System::Resize(Size { height: height as usize, width: width as usize }),
                ),
            ),
            Event::Other => Err(DecodeError::UnsupportedEvent),
        }
    }
}

impl TryFromSpecImpl<Event> for Command {
    open spec fn obeys_try_from_spec() -> bool {
        true
    }

    open spec fn try_from_spec(event: Event) -> Result<Command, DecodeError> {
        Command::decode(event)
    }
}

} // verus!
