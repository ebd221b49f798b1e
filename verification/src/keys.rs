use crate::app::Mode;
use vstd::prelude::*;

verus! {

/// A key of the keyboard, as far as the view tells keys apart.
#[derive(Clone, Copy, Debug, PartialEq, Eq, Structural)]
pub enum Key {
    Down,
    Up,
    Enter,
    Esc,
    Backspace,
    Left,
    Right,
    Char(char),
    Other,
}

/// What a key asks of the view.
#[derive(Clone, Copy, Debug, PartialEq, Eq, Structural)]
pub enum Intent {
    NextProgram,
    PreviousProgram,
    ShowGraphs,
    ShowTable,
    ToggleFilter,
    ToggleSort,
    /// The key belongs to the text of the filter.
    EditFilter,
    /// Sort upwards by the selected column.
    SortAscending,
    /// Sort downwards by the selected column.
    SortDescending,
    /// Sort by no column.
    SortClear,
    PreviousColumn,
    NextColumn,
    CycleSortExit,
    Quit,
    Nothing,
}

/// What a key asks for and whether the program ends after it.
#[derive(Clone, Copy, Debug, PartialEq, Eq, Structural)]
pub struct Decision {
    pub intent: Intent,
    pub quit: bool,
}

/// What a key asks of the view in each mode.
pub open spec fn key_intent(mode: Mode, key: Key) -> Intent {
    match mode {
        Mode::Table => match key {
            Key::Down => Intent::NextProgram,
            Key::Up => Intent::PreviousProgram,
            Key::Enter => Intent::ShowGraphs,
            Key::Esc => Intent::Quit,
            Key::Char(c) => if c == 'j' {
                Intent::NextProgram
            } else if c == 'k' {
                Intent::PreviousProgram
            } else if c == 'f' {
                Intent::ToggleFilter
            } else if c == 's' {
                Intent::ToggleSort
            } else if c == 'q' {
                Intent::Quit
            } else {
                Intent::Nothing
            },
            _ => Intent::Nothing,
        },
        Mode::Graph => match key {
            Key::Enter => Intent::ShowTable,
            Key::Esc => Intent::ShowTable,
            Key::Char(c) => if c == 'q' {
                Intent::Quit
            } else {
                Intent::Nothing
            },
            _ => Intent::Nothing,
        },
        Mode::Filter => match key {
            Key::Enter => Intent::ToggleFilter,
            Key::Esc => Intent::ToggleFilter,
            _ => Intent::EditFilter,
        },
        Mode::Sort => match key {
            Key::Esc => Intent::ToggleSort,
            Key::Up => Intent::SortAscending,
            Key::Down => Intent::SortDescending,
            Key::Backspace => Intent::SortClear,
            Key::Left => Intent::PreviousColumn,
            Key::Right => Intent::NextColumn,
            Key::Enter => Intent::CycleSortExit,
            _ => Intent::Nothing,
        },
    }
}

/// Decides what a key asks of the view. The program ends where the key
/// asks for it, and after Control-C in every mode.
pub fn intent_of(mode: Mode, key: Key, control: bool) -> (r: Decision)
    ensures
        r.intent == key_intent(mode, key),
        r.quit == (key_intent(mode, key) == Intent::Quit || (control && key == Key::Char('c'))),
{
    let intent = match mode {
        Mode::Table => match key {
            Key::Down => Intent::NextProgram,
            Key::Up => Intent::PreviousProgram,
            Key::Enter => Intent::ShowGraphs,
            Key::Esc => Intent::Quit,
            Key::Char(c) => {
                if c == 'j' {
                    Intent::NextProgram
                } else if c == 'k' {
                    Intent::PreviousProgram
                } else if c == 'f' {
                    Intent::ToggleFilter
                } else if c == 's' {
                    Intent::ToggleSort
                } else if c == 'q' {
                    Intent::Quit
                } else {
                    Intent::Nothing
                }
            },
            _ => Intent::Nothing,
        },
        Mode::Graph => match key {
            Key::Enter => Intent::ShowTable,
            Key::Esc => Intent::ShowTable,
            Key::Char(c) => {
                if c == 'q' {
                    Intent::Quit
                } else {
                    Intent::Nothing
                }
            },
            _ => Intent::Nothing,
        },
        Mode::Filter => match key {
            Key::Enter => Intent::ToggleFilter,
            Key::Esc => Intent::ToggleFilter,
            _ => Intent::EditFilter,
        },
        Mode::Sort => match key {
            Key::Esc => Intent::ToggleSort,
            Key::Up => Intent::SortAscending,
            Key::Down => Intent::SortDescending,
            Key::Backspace => Intent::SortClear,
            Key::Left => Intent::PreviousColumn,
            Key::Right => Intent::NextColumn,
            Key::Enter => Intent::CycleSortExit,
            _ => Intent::Nothing,
        },
    };
    let interrupt = control && match key {
        Key::Char(c) => c == 'c',
        _ => false,
    };
    let quit = match intent {
        Intent::Quit => true,
        _ => interrupt,
    };
    Decision { intent, quit }
}

} // verus!
