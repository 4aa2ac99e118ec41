//! The keys of the keypad and the fixed grid that lays them out.

use vstd::prelude::*;

verus! {

/// A key of the virtual keyboard.
#[derive(Clone, Copy, Debug, PartialEq, Eq, Structural)]
pub enum Key {
    Kp0,
    Kp1,
    Kp2,
    Kp3,
    Kp4,
    Kp5,
    Kp6,
    Kp7,
    Kp8,
    Kp9,
    KpSlash,
    KpAsterisk,
    KpMinus,
    KpPlus,
    KpDot,
    KpEnter,
    KpEqual,
    Backspace,
    /// The "5" of the main block, which stands for the percent sign when
    /// pressed together with Shift.
    Five,
    LeftShift,
    NumLock,
    Calc,
}

/// One event written to the virtual keyboard.
#[derive(Clone, Copy, Debug, PartialEq, Eq, Structural)]
pub enum KeyEvent {
    /// The key goes down.
    Down(Key),
    /// The key comes up.
    Up(Key),
    /// A synchronisation marker that closes a report.
    Sync,
}

/// Rows of the grid.
pub const ROWS: usize = 4;

/// Columns of the grid.
pub const COLS: usize = 5;

/// The grid, top row first, each row from left to right.
pub open spec fn key_table() -> Seq<Seq<Key>> {
    seq![
        seq![Key::Kp7, Key::Kp8, Key::Kp9, Key::KpSlash, Key::Backspace],
        seq![Key::Kp4, Key::Kp5, Key::Kp6, Key::KpAsterisk, Key::Backspace],
        seq![Key::Kp1, Key::Kp2, Key::Kp3, Key::KpMinus, Key::Five],
        seq![Key::Kp0, Key::KpDot, Key::KpEnter, Key::KpPlus, Key::KpEqual],
    ]
}

/// The key of a cell, or `None` where the cell lies outside the grid.
pub open spec fn cell_key(row: int, col: int) -> Option<Key> {
    if 0 <= row < ROWS && 0 <= col < COLS {
        Some(key_table()[row][col])
    } else {
        None
    }
}

impl Key {
    /// Whether the key is pressed together with Shift.
    pub open spec fn shifted(self) -> bool {
        self == Key::Five
    }

    /// Whether the key is pressed together with Shift.
    pub fn needs_shift(&self) -> (b: bool)
        ensures
            b == self.shifted(),
    {
        *self == Key::Five
    }
}

/// The key of the cell in row `row` and column `col`, counted from the top
/// left, or `None` where the cell lies outside the grid.
pub fn key_in_cell(row: usize, col: usize) -> (key: Option<Key>)
    ensures
        key == cell_key(row as int, col as int),
{
    if col >= COLS {
        return None;
    }
    match row {
        0 => Some(
            match col {
                0 => Key::Kp7,
                1 => Key::Kp8,
                2 => Key::Kp9,
                3 => Key::KpSlash,
                _ => Key::Backspace,
            },
        ),
        1 => Some(
            match col {
                0 => Key::Kp4,
                1 => Key::Kp5,
                2 => Key::Kp6,
                3 => Key::KpAsterisk,
                _ => Key::Backspace,
            },
        ),
        2 => Some(
            match col {
                0 => Key::Kp1,
                1 => Key::Kp2,
                2 => Key::Kp3,
                3 => Key::KpMinus,
                _ => Key::Five,
            },
        ),
        3 => Some(
            match col {
                0 => Key::Kp0,
                1 => Key::KpDot,
                2 => Key::KpEnter,
                3 => Key::KpPlus,
                _ => Key::KpEqual,
            },
        ),
        _ => None,
    }
}

} // verus!
