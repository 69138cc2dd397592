//! The predefined colors.

use crate::error::Error;
use vstd::prelude::*;
use vstd::string::*;

verus! {

/// A color that the keyboard has predefined. `Rand` stands for no fixed
/// color: the device picks or cycles.
#[derive(Clone, Copy, Debug, PartialEq, Eq, Structural)]
pub enum Color {
    Rand,
    Red,
    Green,
    Yellow,
    Blue,
    Orange,
    Purple,
    White,
}

/// Number of colors.
pub const COLOR_COUNT: usize = 8;

impl Color {
    /// The byte by which the device knows the color.
    pub open spec fn spec_code(self) -> u8 {
        match self {
            Color::Rand => 0x00,
            Color::Red => 0x01,
            Color::Green => 0x02,
            Color::Yellow => 0x03,
            Color::Blue => 0x04,
            Color::Orange => 0x05,
            Color::Purple => 0x06,
            Color::White => 0x07,
        }
    }

    /// The color that the device knows by `code`, if there is one.
    pub open spec fn spec_from_code(code: u8) -> Option<Color> {
        if code <= 7 {
            Some(Color::spec_all()[code as int])
        } else {
            None
        }
    }

    /// The name under which the color is listed.
    pub open spec fn spec_name(self) -> Seq<char> {
        match self {
            Color::Rand => "rainbow"@,
            Color::Red => "red"@,
            Color::Green => "green"@,
            Color::Yellow => "yellow"@,
            Color::Blue => "blue"@,
            Color::Orange => "orange"@,
            Color::Purple => "purple"@,
            Color::White => "white"@,
        }
    }

    /// Whether `text` names the color: by its listed name, or, for `Rand`,
    /// by one of its two other names, `rand` and `cycle`.
    pub open spec fn answers_to(self, text: Seq<char>) -> bool {
        text == self.spec_name() || (self == Color::Rand && (text == "rand"@ || text == "cycle"@))
    }

    /// All colors, in the order of their codes.
    pub open spec fn spec_all() -> Seq<Color> {
        seq![
            Color::Rand,
            Color::Red,
            Color::Green,
            Color::Yellow,
            Color::Blue,
            Color::Orange,
            Color::Purple,
            Color::White,
        ]
    }

    /// The codes run from 0 to 7, and the color at place `i` of the list of
    /// all colors has code `i`.
    pub proof fn lemma_codes(self)
        ensures
            self.spec_code() <= 7,
            Color::spec_all().len() == 8,
            Color::spec_all()[self.spec_code() as int] == self,
            Color::spec_from_code(self.spec_code()) == Some(self),
    {
    }

    /// Two colors with the same code are the same color.
    pub proof fn lemma_code_injective(self, other: Color)
        requires
            self.spec_code() == other.spec_code(),
        ensures
            self == other,
    {
    }

    /// A code that stands for a color is that color's code.
    pub proof fn lemma_from_code_sound(code: u8)
        ensures
            match Color::spec_from_code(code) {
                Some(color) => color.spec_code() == code,
                None => forall|color: Color| color.spec_code() != code,
            },
    {
        if code <= 7 {
            let all = Color::spec_all();
            assert(all.len() == 8);
            assert(forall|i: int| 0 <= i < 8 ==> (#[trigger] all[i]).spec_code() == i);
        }
    }

    /// A text names at most one color.
    pub proof fn lemma_name_unique(self, other: Color, text: Seq<char>)
        requires
            self.answers_to(text),
            other.answers_to(text),
        ensures
            self == other,
    {
        reveal_strlit("rainbow");
        reveal_strlit("rand");
        reveal_strlit("cycle");
        reveal_strlit("red");
        reveal_strlit("green");
        reveal_strlit("yellow");
        reveal_strlit("blue");
        reveal_strlit("orange");
        reveal_strlit("purple");
        reveal_strlit("white");
        assert(text.len() >= 3);
        assert(text[0] == 'r' ==> text[1] == 'a' || text[1] == 'e');
    }

    /// The byte by which the device knows the color.
    pub fn code(&self) -> (code: u8)
        ensures
            code == self.spec_code(),
    {
        match self {
            Color::Rand => 0x00,
            Color::Red => 0x01,
            Color::Green => 0x02,
            Color::Yellow => 0x03,
            Color::Blue => 0x04,
            Color::Orange => 0x05,
            Color::Purple => 0x06,
            Color::White => 0x07,
        }
    }

    /// All colors, in the order of their codes.
    pub fn all() -> (all: [Color; 8])
        ensures
            all@ == Color::spec_all(),
    {
        let all: [Color; 8] = [
            Color::Rand,
            Color::Red,
            Color::Green,
            Color::Yellow,
            Color::Blue,
            Color::Orange,
            Color::Purple,
            Color::White,
        ];
        assert(all@ =~= Color::spec_all());
        all
    }

    /// The color that the device knows by `code`, if there is one.
    pub fn from_code(code: u8) -> (color: Option<Color>)
        ensures
            color == Color::spec_from_code(code),
            color is Some <==> code <= 7,
            color matches Some(c) ==> c.spec_code() == code,
    {
        proof {
            Color::lemma_from_code_sound(code);
        }
        if code <= 7 {
            let all = Color::all();
            Some(all[code as usize])
        } else {
            None
        }
    }

    /// The name under which the color is listed.
    pub fn name(&self) -> (name: &'static str)
        ensures
            name@ == self.spec_name(),
            self.answers_to(name@),
    {
        match self {
            Color::Rand => "rainbow",
            Color::Red => "red",
            Color::Green => "green",
            Color::Yellow => "yellow",
            Color::Blue => "blue",
            Color::Orange => "orange",
            Color::Purple => "purple",
            Color::White => "white",
        }
    }

    /// Finds the color that `name` names.
    pub fn from_name(name: &str) -> (found: Result<Color, Error>)
        ensures
            found matches Ok(color) ==> color.answers_to(name@),
            found matches Err(error) ==> error == Error::UnknownColorName,
            forall|color: Color| #[trigger]
                color.answers_to(name@) ==> found == Ok::<Color, Error>(color),
    {
        let all = Color::all();
        let wanted = String::from_str(name);
        if wanted == String::from_str("rand") || wanted == String::from_str("cycle") {
            proof {
                assert forall|other: Color| other.answers_to(name@) implies other
                    == Color::Rand by {
                    other.lemma_name_unique(Color::Rand, name@);
                }
            }
            return Ok(Color::Rand);
        }
        let mut i: usize = 0;
        while i < 8
            invariant
                i <= 8,
                all@ == Color::spec_all(),
                wanted@ == name@,
                name@ != "rand"@,
                name@ != "cycle"@,
                forall|j: int| 0 <= j < i ==> (#[trigger] all@[j]).spec_name() != name@,
            decreases 8 - i,
        {
            let color = all[i];
            let this = String::from_str(color.name());
            if this == wanted {
                proof {
                    assert forall|other: Color| other.answers_to(name@) implies other == color by {
                        color.lemma_name_unique(other, name@);
                    }
                }
                return Ok(color);
            }
            i += 1;
        }
        proof {
            assert forall|color: Color| !color.answers_to(name@) by {
                color.lemma_codes();
                assert(all@[color.spec_code() as int] == color);
            }
        }
        Err(Error::UnknownColorName)
    }
}

} // verus!
