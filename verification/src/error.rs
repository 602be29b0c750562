//! The error that the grid's checked accessors report, and its message.

use vstd::prelude::*;
use vstd::string::StringExecFns;

verus! {

/// The character that writes the digit `d`.
pub open spec fn digit_char(d: int) -> char {
    if d == 0 {
        '0'
    } else if d == 1 {
        '1'
    } else if d == 2 {
        '2'
    } else if d == 3 {
        '3'
    } else if d == 4 {
        '4'
    } else if d == 5 {
        '5'
    } else if d == 6 {
        '6'
    } else if d == 7 {
        '7'
    } else if d == 8 {
        '8'
    } else {
        '9'
    }
}

/// The decimal numeral of `n`, without leading zeros.
pub open spec fn decimal(n: nat) -> Seq<char>
    decreases n,
{
    if n < 10 {
        seq![digit_char(n as int)]
    } else {
        decimal(n / 10).push(digit_char((n % 10) as int))
    }
}

/// The text of the error for a position `(row, col)` that lies outside a
/// grid of `height` rows and `width` columns.
pub open spec fn out_of_bounds_message(row: nat, col: nat, height: nat, width: nat) -> Seq<char> {
    "セルの位置 ("@ + decimal(row) + ", "@ + decimal(col) + ") はサイズ "@ + decimal(height) + "x"@
        + decimal(width) + " のフィールド範囲外です"@
}

/// What the textual form of an error puts before its message.
pub open spec fn display_prefix() -> Seq<char> {
    "Game Error: "@
}

fn digit_str(d: usize) -> (s: &'static str)
    requires
        d < 10,
    ensures
        s@ == seq![digit_char(d as int)],
{
    proof {
        reveal_strlit("0");
        reveal_strlit("1");
        reveal_strlit("2");
        reveal_strlit("3");
        reveal_strlit("4");
        reveal_strlit("5");
        reveal_strlit("6");
        reveal_strlit("7");
        reveal_strlit("8");
        reveal_strlit("9");
    }
    let s: &'static str = if d == 0 {
        "0"
    } else if d == 1 {
        "1"
    } else if d == 2 {
        "2"
    } else if d == 3 {
        "3"
    } else if d == 4 {
        "4"
    } else if d == 5 {
        "5"
    } else if d == 6 {
        "6"
    } else if d == 7 {
        "7"
    } else if d == 8 {
        "8"
    } else {
        "9"
    };
    assert(s@ =~= seq![digit_char(d as int)]);
    s
}

/// Writes `n` in decimal.
pub fn decimal_string(n: usize) -> (text: String)
    ensures
        text@ == decimal(n as nat),
    decreases n,
{
    if n < 10 {
        String::from_str(digit_str(n))
    } else {
        let mut text = decimal_string(n / 10);
        text.append(digit_str(n % 10));
        assert(text@ =~= decimal(n as nat));
        text
    }
}

/// A failed operation of the game, with a message that says what went wrong.
#[derive(Debug, PartialEq)]
pub struct GameError {
    message: String,
}

impl View for GameError {
    type V = Seq<char>;

    /// The error's message.
    closed spec fn view(&self) -> Seq<char> {
        self.message@
    }
}

impl GameError {
    /// An error that carries `message`.
    pub fn new(message: &str) -> (error: Self)
        ensures
            error@ == message@,
    {
        Self { message: String::from_str(message) }
    }

    /// The error for a position `(row, col)` outside a grid of `height`
    /// rows and `width` columns.
    pub fn out_of_bounds(row: usize, col: usize, height: usize, width: usize) -> (error: Self)
        ensures
            error@ == out_of_bounds_message(row as nat, col as nat, height as nat, width as nat),
    {
        let mut message = String::from_str("セルの位置 (");
        message.append(decimal_string(row).as_str());
        message.append(", ");
        message.append(decimal_string(col).as_str());
        message.append(") はサイズ ");
        message.append(decimal_string(height).as_str());
        message.append("x");
        message.append(decimal_string(width).as_str());
        message.append(" のフィールド範囲外です");
        Self { message }
    }

    /// A copy of the message.
    pub fn message(&self) -> (message: String)
        ensures
            message@ == self@,
    {
        self.message.clone()
    }

    /// The textual form of the error: the prefix `Game Error: `, then the
    /// message.
    pub fn to_string(&self) -> (text: String)
        ensures
            text@ == display_prefix() + self@,
    {
        let mut text = String::from_str("Game Error: ");
        text.append(self.message.as_str());
        text
    }
}

impl Clone for GameError {
    fn clone(&self) -> (copy: Self)
        ensures
            copy@ == self@,
    {
        Self { message: self.message.clone() }
    }
}

} // verus!
