use vstd::prelude::*;

verus! {

/// The sixteen colors of a Linux console.
#[derive(Debug, Clone, Copy, PartialEq, Eq, Structural)]
pub enum ConsoleColor {
    Black,
    Red,
    Green,
    Yellow,
    Blue,
    Magenta,
    Cyan,
    White,
    BrightBlack,
    BrightRed,
    BrightGreen,
    BrightYellow,
    BrightBlue,
    BrightMagenta,
    BrightCyan,
    BrightWhite,
}

/// The SGR foreground code of a color: 30..=37 for the normal colors and
/// 90..=97 for the bright ones.
pub open spec fn console_code(c: ConsoleColor) -> u8 {
    match c {
        ConsoleColor::Black => 30,
        ConsoleColor::Red => 31,
        ConsoleColor::Green => 32,
        ConsoleColor::Yellow => 33,
        ConsoleColor::Blue => 34,
        ConsoleColor::Magenta => 35,
        ConsoleColor::Cyan => 36,
        ConsoleColor::White => 37,
        ConsoleColor::BrightBlack => 90,
        ConsoleColor::BrightRed => 91,
        ConsoleColor::BrightGreen => 92,
        ConsoleColor::BrightYellow => 93,
        ConsoleColor::BrightBlue => 94,
        ConsoleColor::BrightMagenta => 95,
        ConsoleColor::BrightCyan => 96,
        ConsoleColor::BrightWhite => 97,
    }
}

/// The codes that name a color: 30..=37 and 90..=97.
pub open spec fn is_color_code(code: u8) -> bool {
    (30 <= code <= 37) || (90 <= code <= 97)
}

impl ConsoleColor {
    pub fn to_console_code(&self) -> (code: u8)
        ensures
            code == console_code(*self),
    {
        match self {
            ConsoleColor::Black => 30,
            ConsoleColor::Red => 31,
            ConsoleColor::Green => 32,
            ConsoleColor::Yellow => 33,
            ConsoleColor::Blue => 34,
            ConsoleColor::Magenta => 35,
            ConsoleColor::Cyan => 36,
            ConsoleColor::White => 37,
            ConsoleColor::BrightBlack => 90,
            ConsoleColor::BrightRed => 91,
            ConsoleColor::BrightGreen => 92,
            ConsoleColor::BrightYellow => 93,
            ConsoleColor::BrightBlue => 94,
            ConsoleColor::BrightMagenta => 95,
            ConsoleColor::BrightCyan => 96,
            ConsoleColor::BrightWhite => 97,
        }
    }

    /// The color whose code is `code`, if there is one.
    pub fn from_console_code(code: u8) -> (res: Option<ConsoleColor>)
        ensures
            res is Some <==> is_color_code(code),
            res matches Some(c) ==> console_code(c) == code,
    {
        match code {
            30 => Some(ConsoleColor::Black),
            31 => Some(ConsoleColor::Red),
            32 => Some(ConsoleColor::Green),
            33 => Some(ConsoleColor::Yellow),
            34 => Some(ConsoleColor::Blue),
            35 => Some(ConsoleColor::Magenta),
            36 => Some(ConsoleColor::Cyan),
            37 => Some(ConsoleColor::White),
            90 => Some(ConsoleColor::BrightBlack),
            91 => Some(ConsoleColor::BrightRed),
            92 => Some(ConsoleColor::BrightGreen),
            93 => Some(ConsoleColor::BrightYellow),
            94 => Some(ConsoleColor::BrightBlue),
            95 => Some(ConsoleColor::BrightMagenta),
            96 => Some(ConsoleColor::BrightCyan),
            97 => Some(ConsoleColor::BrightWhite),
            _ => None,
        }
    }
}

/// Every color's code is a color code, and decoding it gives the color back;
/// distinct colors have distinct codes.
pub proof fn lemma_console_code_roundtrip(c: ConsoleColor, d: ConsoleColor)
    ensures
        is_color_code(console_code(c)),
        console_code(c) == console_code(d) ==> c == d,
{
}

} // verus!
