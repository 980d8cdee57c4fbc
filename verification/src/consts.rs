//! The colours the bot's embeds use.
use vstd::prelude::*;

use crate::text::{chars_eq, chars_of};

verus! {

pub const BLUE: u32 = 0x60A5FA;

pub const GREEN: u32 = 0x22C55E;

pub const ORANGE: u32 = 0xFB923C;

pub const RED: u32 = 0xEF4444;

pub const YELLOW: u32 = 0xFDE047;

/// `str::to_lowercase`: Unicode lower-casing, a fixed function of the text.
pub uninterp spec fn unicode_lowercase(s: Seq<char>) -> Seq<char>;

/// `str::to_lowercase`. Its result is named [`unicode_lowercase`]; the
/// Unicode case tables are not restated.
#[verifier::external_body]
fn to_lowercase(s: &str) -> (r: String)
    ensures
        r@ == unicode_lowercase(s@),
{
    s.to_lowercase()
}

/// The embed colours.
#[derive(Clone, Copy, Debug, PartialEq, Eq)]
pub enum Colors {
    Blue,
    Green,
    Orange,
    Red,
    Yellow,
}

impl Colors {
    /// The RGB value of the colour.
    pub open spec fn rgb(self) -> u32 {
        match self {
            Colors::Blue => BLUE,
            Colors::Green => GREEN,
            Colors::Orange => ORANGE,
            Colors::Red => RED,
            Colors::Yellow => YELLOW,
        }
    }

    /// The lower-case name of the colour.
    pub open spec fn name(self) -> Seq<char> {
        match self {
            Colors::Blue => "blue"@,
            Colors::Green => "green"@,
            Colors::Orange => "orange"@,
            Colors::Red => "red"@,
            Colors::Yellow => "yellow"@,
        }
    }

    /// The colour whose name is exactly `name`.
    pub open spec fn named(name: Seq<char>) -> Option<Colors> {
        if name == "blue"@ {
            Some(Colors::Blue)
        } else if name == "green"@ {
            Some(Colors::Green)
        } else if name == "orange"@ {
            Some(Colors::Orange)
        } else if name == "red"@ {
            Some(Colors::Red)
        } else if name == "yellow"@ {
            Some(Colors::Yellow)
        } else {
            None
        }
    }

    /// The RGB value of the colour (what `Colour::from` receives).
    pub fn value(self) -> (r: u32)
        ensures
            r == self.rgb(),
    {
        match self {
            Colors::Blue => BLUE,
            Colors::Green => GREEN,
            Colors::Orange => ORANGE,
            Colors::Red => RED,
            Colors::Yellow => YELLOW,
        }
    }

    /// The colour whose name is exactly `name` (already lower-cased).
    pub fn from_lowercase_name(name: &str) -> (r: Option<Colors>)
        ensures
            r == Colors::named(name@),
    {
        let n = chars_of(name);
        if chars_eq(&n, &chars_of("blue")) {
            Some(Colors::Blue)
        } else if chars_eq(&n, &chars_of("green")) {
            Some(Colors::Green)
        } else if chars_eq(&n, &chars_of("orange")) {
            Some(Colors::Orange)
        } else if chars_eq(&n, &chars_of("red")) {
            Some(Colors::Red)
        } else if chars_eq(&n, &chars_of("yellow")) {
            Some(Colors::Yellow)
        } else {
            None
        }
    }

    /// The colour named `s` in any letter case.
    pub fn from_name(s: &str) -> (r: Result<Colors, ()>)
        ensures
            r == match Colors::named(unicode_lowercase(s@)) {
                Some(c) => Ok(c),
                None => Err(()),
            },
    {
        let lower = to_lowercase(s);
        match Colors::from_lowercase_name(lower.as_str()) {
            Some(c) => Ok(c),
            None => Err(()),
        }
    }
}

impl Default for Colors {
    fn default() -> (r: Self)
        ensures
            r == Colors::Green,
    {
        Colors::Green
    }
}

impl std::str::FromStr for Colors {
    type Err = ();

    fn from_str(s: &str) -> (r: Result<Self, Self::Err>)
        ensures
            r == match Colors::named(unicode_lowercase(s@)) {
                Some(c) => Ok(c),
                None => Err(()),
            },
    {
        Colors::from_name(s)
    }
}

/// Every colour is found again by its own name.
pub proof fn law_colour_name_round_trip(c: Colors)
    ensures
        Colors::named(c.name()) == Some(c),
{
    reveal_strlit("blue");
    reveal_strlit("green");
    reveal_strlit("orange");
    reveal_strlit("red");
    reveal_strlit("yellow");
    assert("green"@[0] != "blue"@[0]);
    assert("orange"@[0] != "blue"@[0] && "orange"@[0] != "green"@[0]);
    assert("red"@[0] != "blue"@[0] && "red"@[0] != "green"@[0] && "red"@[0] != "orange"@[0]);
    assert("yellow"@[0] != "blue"@[0] && "yellow"@[0] != "green"@[0] && "yellow"@[0] != "orange"@[0]
        && "yellow"@[0] != "red"@[0]);
}

/// Distinct colours have distinct RGB values.
pub proof fn law_colour_values_distinct(a: Colors, b: Colors)
    requires
        a != b,
    ensures
        a.rgb() != b.rgb(),
{
}

} // verus!
