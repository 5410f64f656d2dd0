//! The painter's color and direction alphabets, and the error kinds the
//! library reports.
//!
//! Both enumerations are closed cycles of eight values; `next_color` and
//! `next_direction` give one step along the respective cycle. Names are
//! parsed case-insensitively and rendered in their canonical capitalization.

use vstd::prelude::*;

verus! {

/// A color of the pixel grid, one of a closed set of eight.
#[derive(Debug, Copy, Clone, PartialEq, Eq, Structural)]
pub enum CFRColor {
    White,
    Black,
    Blue,
    Green,
    Cyan,
    Red,
    Magenta,
    Yellow,
}

/// A compass direction of the painter, one of eight at 45-degree steps.
#[derive(Debug, Copy, Clone, PartialEq, Eq, Structural)]
pub enum CFRDirection {
    Up,
    UpRight,
    Right,
    DownRight,
    Down,
    DownLeft,
    Left,
    UpLeft,
}

/// Every failure the library can report.
///
/// `EndOfCommands` is the normal termination signal of a run; the other
/// three are genuine errors.
#[derive(Debug, Copy, Clone, PartialEq, Eq, Structural)]
pub enum CFRError {
    EndOfCommands,
    UnmatchedCloseBracket,
    InvalidColorName,
    InvalidDirectionName,
}

/// One step along the fixed color cycle
/// White -> Black -> Blue -> Green -> Cyan -> Red -> Magenta -> Yellow -> White.
pub open spec fn next_color(c: CFRColor) -> CFRColor {
    match c {
        CFRColor::White => CFRColor::Black,
        CFRColor::Black => CFRColor::Blue,
        CFRColor::Blue => CFRColor::Green,
        CFRColor::Green => CFRColor::Cyan,
        CFRColor::Cyan => CFRColor::Red,
        CFRColor::Red => CFRColor::Magenta,
        CFRColor::Magenta => CFRColor::Yellow,
        CFRColor::Yellow => CFRColor::White,
    }
}

/// One step along the fixed direction cycle
/// Up -> UpRight -> Right -> DownRight -> Down -> DownLeft -> Left -> UpLeft -> Up.
pub open spec fn next_direction(d: CFRDirection) -> CFRDirection {
    match d {
        CFRDirection::Up => CFRDirection::UpRight,
        CFRDirection::UpRight => CFRDirection::Right,
        CFRDirection::Right => CFRDirection::DownRight,
        CFRDirection::DownRight => CFRDirection::Down,
        CFRDirection::Down => CFRDirection::DownLeft,
        CFRDirection::DownLeft => CFRDirection::Left,
        CFRDirection::Left => CFRDirection::UpLeft,
        CFRDirection::UpLeft => CFRDirection::Up,
    }
}

/// The canonical name of a color, as rendered by `CFRColor::name`.
pub open spec fn color_name(c: CFRColor) -> Seq<char> {
    match c {
        CFRColor::White => "White"@,
        CFRColor::Black => "Black"@,
        CFRColor::Blue => "Blue"@,
        CFRColor::Green => "Green"@,
        CFRColor::Cyan => "Cyan"@,
        CFRColor::Red => "Red"@,
        CFRColor::Magenta => "Magenta"@,
        CFRColor::Yellow => "Yellow"@,
    }
}

/// The canonical name of a direction, as rendered by `CFRDirection::name`.
pub open spec fn direction_name(d: CFRDirection) -> Seq<char> {
    match d {
        CFRDirection::Up => "Up"@,
        CFRDirection::UpRight => "UpRight"@,
        CFRDirection::Right => "Right"@,
        CFRDirection::DownRight => "DownRight"@,
        CFRDirection::Down => "Down"@,
        CFRDirection::DownLeft => "DownLeft"@,
        CFRDirection::Left => "Left"@,
        CFRDirection::UpLeft => "UpLeft"@,
    }
}

/// The code of a character with ASCII upper-case letters folded to lower case.
pub open spec fn lower_code(c: char) -> int {
    if 'A' <= c && c <= 'Z' {
        c as int + 32
    } else {
        c as int
    }
}

/// Whether two character sequences are equal up to ASCII case.
pub open spec fn name_matches(s: Seq<char>, t: Seq<char>) -> bool {
    s.len() == t.len() && forall|i: int| 0 <= i < s.len() ==> lower_code(s[i]) == lower_code(t[i])
}

/// What parsing a color name yields: the color whose canonical name the
/// input matches up to ASCII case, or `InvalidColorName` if it matches none.
pub open spec fn parse_color(s: Seq<char>) -> Result<CFRColor, CFRError> {
    if name_matches(s, color_name(CFRColor::White)) {
        Ok(CFRColor::White)
    } else if name_matches(s, color_name(CFRColor::Black)) {
        Ok(CFRColor::Black)
    } else if name_matches(s, color_name(CFRColor::Blue)) {
        Ok(CFRColor::Blue)
    } else if name_matches(s, color_name(CFRColor::Green)) {
        Ok(CFRColor::Green)
    } else if name_matches(s, color_name(CFRColor::Cyan)) {
        Ok(CFRColor::Cyan)
    } else if name_matches(s, color_name(CFRColor::Red)) {
        Ok(CFRColor::Red)
    } else if name_matches(s, color_name(CFRColor::Magenta)) {
        Ok(CFRColor::Magenta)
    } else if name_matches(s, color_name(CFRColor::Yellow)) {
        Ok(CFRColor::Yellow)
    } else {
        Err(CFRError::InvalidColorName)
    }
}

/// What parsing a direction name yields, analogous to `parse_color`.
pub open spec fn parse_direction(s: Seq<char>) -> Result<CFRDirection, CFRError> {
    if name_matches(s, direction_name(CFRDirection::Up)) {
        Ok(CFRDirection::Up)
    } else if name_matches(s, direction_name(CFRDirection::UpRight)) {
        Ok(CFRDirection::UpRight)
    } else if name_matches(s, direction_name(CFRDirection::Right)) {
        Ok(CFRDirection::Right)
    } else if name_matches(s, direction_name(CFRDirection::DownRight)) {
        Ok(CFRDirection::DownRight)
    } else if name_matches(s, direction_name(CFRDirection::Down)) {
        Ok(CFRDirection::Down)
    } else if name_matches(s, direction_name(CFRDirection::DownLeft)) {
        Ok(CFRDirection::DownLeft)
    } else if name_matches(s, direction_name(CFRDirection::Left)) {
        Ok(CFRDirection::Left)
    } else if name_matches(s, direction_name(CFRDirection::UpLeft)) {
        Ok(CFRDirection::UpLeft)
    } else {
        Err(CFRError::InvalidDirectionName)
    }
}

/// Whether two characters are equal up to ASCII case.
fn chars_match(a: char, b: char) -> (r: bool)
    ensures
        r == (lower_code(a) == lower_code(b)),
{
    let av: u32 = a as u32;
    let bv: u32 = b as u32;
    let al: u32 = if 65 <= av && av <= 90 {
        av + 32
    } else {
        av
    };
    let bl: u32 = if 65 <= bv && bv <= 90 {
        bv + 32
    } else {
        bv
    };
    al == bl
}

/// Whether two strings are equal up to ASCII case.
fn str_matches(s: &str, t: &str) -> (r: bool)
    ensures
        r == name_matches(s@, t@),
{
    let sn = s.unicode_len();
    let tn = t.unicode_len();
    if sn != tn {
        return false;
    }
    let mut i: usize = 0;
    while i < sn
        invariant
            0 <= i <= sn,
            sn == s@.len(),
            sn == t@.len(),
            forall|j: int| 0 <= j < i ==> lower_code(s@[j]) == lower_code(t@[j]),
        decreases sn - i,
    {
        if !chars_match(s.get_char(i), t.get_char(i)) {
            return false;
        }
        i = i + 1;
    }
    true
}

impl CFRColor {
    /// The canonical, capitalized name of this color.
    pub fn name(&self) -> (r: &'static str)
        ensures
            r@ == color_name(*self),
    {
        match self {
            CFRColor::White => "White",
            CFRColor::Black => "Black",
            CFRColor::Blue => "Blue",
            CFRColor::Green => "Green",
            CFRColor::Cyan => "Cyan",
            CFRColor::Red => "Red",
            CFRColor::Magenta => "Magenta",
            CFRColor::Yellow => "Yellow",
        }
    }

    /// Parses a color from its name, ignoring ASCII case.
    pub fn from_str(s: &str) -> (r: Result<CFRColor, CFRError>)
        ensures
            r == parse_color(s@),
    {
        if str_matches(s, "White") {
            Ok(CFRColor::White)
        } else if str_matches(s, "Black") {
            Ok(CFRColor::Black)
        } else if str_matches(s, "Blue") {
            Ok(CFRColor::Blue)
        } else if str_matches(s, "Green") {
            Ok(CFRColor::Green)
        } else if str_matches(s, "Cyan") {
            Ok(CFRColor::Cyan)
        } else if str_matches(s, "Red") {
            Ok(CFRColor::Red)
        } else if str_matches(s, "Magenta") {
            Ok(CFRColor::Magenta)
        } else if str_matches(s, "Yellow") {
            Ok(CFRColor::Yellow)
        } else {
            Err(CFRError::InvalidColorName)
        }
    }
}

impl CFRDirection {
    /// The canonical, capitalized name of this direction.
    pub fn name(&self) -> (r: &'static str)
        ensures
            r@ == direction_name(*self),
    {
        match self {
            CFRDirection::Up => "Up",
            CFRDirection::UpRight => "UpRight",
            CFRDirection::Right => "Right",
            CFRDirection::DownRight => "DownRight",
            CFRDirection::Down => "Down",
            CFRDirection::DownLeft => "DownLeft",
            CFRDirection::Left => "Left",
            CFRDirection::UpLeft => "UpLeft",
        }
    }

    /// Parses a direction from its name, ignoring ASCII case.
    pub fn from_str(s: &str) -> (r: Result<CFRDirection, CFRError>)
        ensures
            r == parse_direction(s@),
    {
        if str_matches(s, "Up") {
            Ok(CFRDirection::Up)
        } else if str_matches(s, "UpRight") {
            Ok(CFRDirection::UpRight)
        } else if str_matches(s, "Right") {
            Ok(CFRDirection::Right)
        } else if str_matches(s, "DownRight") {
            Ok(CFRDirection::DownRight)
        } else if str_matches(s, "Down") {
            Ok(CFRDirection::Down)
        } else if str_matches(s, "DownLeft") {
            Ok(CFRDirection::DownLeft)
        } else if str_matches(s, "Left") {
            Ok(CFRDirection::Left)
        } else if str_matches(s, "UpLeft") {
            Ok(CFRDirection::UpLeft)
        } else {
            Err(CFRError::InvalidDirectionName)
        }
    }
}

/// The color cycle is closed: eight color changes return any color to itself.
pub proof fn lemma_color_cycle_closed(c: CFRColor)
    ensures
        next_color(
            next_color(
                next_color(
                    next_color(next_color(next_color(next_color(next_color(c))))),
                ),
            ),
        ) == c,
{
}

/// The direction cycle is closed: eight rotations return any direction to itself.
pub proof fn lemma_direction_cycle_closed(d: CFRDirection)
    ensures
        next_direction(
            next_direction(
                next_direction(
                    next_direction(
                        next_direction(next_direction(next_direction(next_direction(d)))),
                    ),
                ),
            ),
        ) == d,
{
}

} // verus!
