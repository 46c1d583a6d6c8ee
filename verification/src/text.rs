//! Numbers and windows as text.

use crate::window::Window;
use vstd::prelude::*;
use vstd::string::StringExecFns;

verus! {

/// The character that stands for a digit below ten.
pub open spec fn digit(value: nat) -> char {
    if value == 0 {
        '0'
    } else if value == 1 {
        '1'
    } else if value == 2 {
        '2'
    } else if value == 3 {
        '3'
    } else if value == 4 {
        '4'
    } else if value == 5 {
        '5'
    } else if value == 6 {
        '6'
    } else if value == 7 {
        '7'
    } else if value == 8 {
        '8'
    } else {
        '9'
    }
}

/// A number in decimal digits, without leading zeros.
pub open spec fn decimal(value: nat) -> Seq<char>
    decreases value,
{
    if value < 10 {
        seq![digit(value)]
    } else {
        decimal(value / 10).push(digit(value % 10))
    }
}

/// A window as a line of text: its length, its cursor counted from the start, and its policy
/// on the stream's cursor.
pub open spec fn window_text(window: Window) -> Seq<char> {
    "SubCursor<"@ + decimal(window.length() as nat) + "@"@ + decimal(window.relative() as nat)
        + ", preserve="@ + flag_text(window.preserve) + ">"@
}

/// A flag in words.
pub open spec fn flag_text(flag: bool) -> Seq<char> {
    if flag {
        "true"@
    } else {
        "false"@
    }
}

/// The text of one digit.
fn digit_text(value: u64) -> (text: &'static str)
    requires
        value < 10,
    ensures
        text@ == seq![digit(value as nat)],
{
    proof {
        reveal_strlit("0");
        reveal_strlit("1");
        reveal_strlit("2");
        reveal_strlit("3");
        reveal_strlit("4");
        reveal_strlit("5");
        reveal_strlit("6");
        reveal_strlit("7");
        reveal_strlit("8");
        reveal_strlit("9");
    }
    let text: &'static str = if value == 0 {
        "0"
    } else if value == 1 {
        "1"
    } else if value == 2 {
        "2"
    } else if value == 3 {
        "3"
    } else if value == 4 {
        "4"
    } else if value == 5 {
        "5"
    } else if value == 6 {
        "6"
    } else if value == 7 {
        "7"
    } else if value == 8 {
        "8"
    } else {
        "9"
    };
    proof {
        assert(text@ =~= seq![digit(value as nat)]);
    }
    text
}

/// Writes `value` in decimal digits at the end of `text`.
pub fn push_decimal(text: &mut String, value: u64)
    ensures
        final(text)@ == old(text)@ + decimal(value as nat),
    decreases value,
{
    if value >= 10 {
        push_decimal(text, value / 10);
    }
    text.append(digit_text(value % 10));
    proof {
        if value >= 10 {
            assert(old(text)@ + decimal(value as nat / 10) + seq![digit(value as nat % 10)]
                =~= old(text)@ + decimal(value as nat));
        }
    }
}

impl Window {
    /// The window as a line of text.
    pub fn to_string(&self) -> (text: String)
        requires
            self.wf(),
            self.start <= self.end,
        ensures
            text@ == window_text(*self),
    {
        let mut text = String::from_str("SubCursor<");
        push_decimal(&mut text, self.len() as u64);
        text.append("@");
        push_decimal(&mut text, self.position());
        text.append(", preserve=");
        if self.preserve {
            text.append("true");
        } else {
            text.append("false");
        }
        text.append(">");
        text
    }
}

} // verus!
