//! The built-in lighting effects.

use crate::error::Error;
use vstd::prelude::*;
use vstd::string::*;

verus! {

/// A lighting effect that the keyboard has built in.
#[derive(Clone, Copy, Debug, PartialEq, Eq, Structural)]
pub enum Preset {
    Static,
    Breathing,
    Wave,
    FadeOnKeypress,
    Marquee,
    Ripple,
    FlashOnKeypress,
    Neon,
    RainbowMarquee,
    Raindrop,
    CircleMarquee,
    Hedge,
    Rotate,
}

/// Number of presets.
pub const PRESET_COUNT: usize = 13;

impl Preset {
    /// The byte by which the device knows the preset.
    pub open spec fn spec_code(self) -> u8 {
        match self {
            Preset::Static => 0x01,
            Preset::Breathing => 0x02,
            Preset::Wave => 0x03,
            Preset::FadeOnKeypress => 0x04,
            Preset::Marquee => 0x05,
            Preset::Ripple => 0x06,
            Preset::FlashOnKeypress => 0x07,
            Preset::Neon => 0x08,
            Preset::RainbowMarquee => 0x09,
            Preset::Raindrop => 0x0a,
            Preset::CircleMarquee => 0x0b,
            Preset::Hedge => 0x0c,
            Preset::Rotate => 0x0d,
        }
    }

    /// The preset that the device knows by `code`, if there is one.
    pub open spec fn spec_from_code(code: u8) -> Option<Preset> {
        if 1 <= code <= 13 {
            Some(Preset::spec_all()[code - 1])
        } else {
            None
        }
    }

    /// The name by which people know the preset.
    pub open spec fn spec_name(self) -> Seq<char> {
        match self {
            Preset::Static => "static"@,
            Preset::Breathing => "breathing"@,
            Preset::Wave => "wave"@,
            Preset::FadeOnKeypress => "fade_on_keypress"@,
            Preset::Marquee => "marquee"@,
            Preset::Ripple => "ripple"@,
            Preset::FlashOnKeypress => "flash_on_keypress"@,
            Preset::Neon => "neon"@,
            Preset::RainbowMarquee => "rainbow_marquee"@,
            Preset::Raindrop => "raindrop"@,
            Preset::CircleMarquee => "circle_marquee"@,
            Preset::Hedge => "hedge"@,
            Preset::Rotate => "rotate"@,
        }
    }

    /// All presets, in the order of their codes.
    pub open spec fn spec_all() -> Seq<Preset> {
        seq![
            Preset::Static,
            Preset::Breathing,
            Preset::Wave,
            Preset::FadeOnKeypress,
            Preset::Marquee,
            Preset::Ripple,
            Preset::FlashOnKeypress,
            Preset::Neon,
            Preset::RainbowMarquee,
            Preset::Raindrop,
            Preset::CircleMarquee,
            Preset::Hedge,
            Preset::Rotate,
        ]
    }

    /// Whether the effect takes a color: all do but `Wave` and `Neon`.
    pub open spec fn spec_needs_color(self) -> bool {
        self != Preset::Wave && self != Preset::Neon
    }

    /// The codes run from 1 to 13, and the preset at place `i` of the list of
    /// all presets has code `i + 1`.
    pub proof fn lemma_codes(self)
        ensures
            1 <= self.spec_code() <= 13,
            Preset::spec_all().len() == 13,
            Preset::spec_all()[self.spec_code() - 1] == self,
            Preset::spec_from_code(self.spec_code()) == Some(self),
    {
    }

    /// Two presets with the same code are the same preset.
    pub proof fn lemma_code_injective(self, other: Preset)
        requires
            self.spec_code() == other.spec_code(),
        ensures
            self == other,
    {
    }

    /// Two presets with the same name are the same preset.
    pub proof fn lemma_name_injective(self, other: Preset)
        requires
            self.spec_name() == other.spec_name(),
        ensures
            self == other,
    {
        reveal_strlit("static");
        reveal_strlit("breathing");
        reveal_strlit("wave");
        reveal_strlit("fade_on_keypress");
        reveal_strlit("marquee");
        reveal_strlit("ripple");
        reveal_strlit("flash_on_keypress");
        reveal_strlit("neon");
        reveal_strlit("rainbow_marquee");
        reveal_strlit("raindrop");
        reveal_strlit("circle_marquee");
        reveal_strlit("hedge");
        reveal_strlit("rotate");
        let (a, b) = (self.spec_name(), other.spec_name());
        assert(a.len() == b.len() && a[0] == b[0] && a[1] == b[1]);
    }

    /// A code that stands for a preset is that preset's code.
    pub proof fn lemma_from_code_sound(code: u8)
        ensures
            match Preset::spec_from_code(code) {
                Some(preset) => preset.spec_code() == code,
                None => forall|preset: Preset| preset.spec_code() != code,
            },
    {
        if 1 <= code <= 13 {
            let all = Preset::spec_all();
            assert(all.len() == 13);
            assert(forall|i: int| 0 <= i < 13 ==> (#[trigger] all[i]).spec_code() == i + 1);
        }
    }

    /// The byte by which the device knows the preset.
    pub fn code(&self) -> (code: u8)
        ensures
            code == self.spec_code(),
    {
        match self {
            Preset::Static => 0x01,
            Preset::Breathing => 0x02,
            Preset::Wave => 0x03,
            Preset::FadeOnKeypress => 0x04,
            Preset::Marquee => 0x05,
            Preset::Ripple => 0x06,
            Preset::FlashOnKeypress => 0x07,
            Preset::Neon => 0x08,
            Preset::RainbowMarquee => 0x09,
            Preset::Raindrop => 0x0a,
            Preset::CircleMarquee => 0x0b,
            Preset::Hedge => 0x0c,
            Preset::Rotate => 0x0d,
        }
    }

    /// All presets, in the order of their codes.
    pub fn all() -> (all: [Preset; 13])
        ensures
            all@ == Preset::spec_all(),
    {
        let all: [Preset; 13] = [
            Preset::Static,
            Preset::Breathing,
            Preset::Wave,
            Preset::FadeOnKeypress,
            Preset::Marquee,
            Preset::Ripple,
            Preset::FlashOnKeypress,
            Preset::Neon,
            Preset::RainbowMarquee,
            Preset::Raindrop,
            Preset::CircleMarquee,
            Preset::Hedge,
            Preset::Rotate,
        ];
        assert(all@ =~= Preset::spec_all());
        all
    }

    /// The preset that the device knows by `code`, if there is one.
    pub fn from_code(code: u8) -> (preset: Option<Preset>)
        ensures
            preset == Preset::spec_from_code(code),
            preset is Some <==> 1 <= code <= 13,
            preset matches Some(p) ==> p.spec_code() == code,
    {
        proof {
            Preset::lemma_from_code_sound(code);
        }
        if 1 <= code && code <= 13 {
            let all = Preset::all();
            Some(all[(code - 1) as usize])
        } else {
            None
        }
    }

    /// The name by which people know the preset.
    pub fn name(&self) -> (name: &'static str)
        ensures
            name@ == self.spec_name(),
    {
        match self {
            Preset::Static => "static",
            Preset::Breathing => "breathing",
            Preset::Wave => "wave",
            Preset::FadeOnKeypress => "fade_on_keypress",
            Preset::Marquee => "marquee",
            Preset::Ripple => "ripple",
            Preset::FlashOnKeypress => "flash_on_keypress",
            Preset::Neon => "neon",
            Preset::RainbowMarquee => "rainbow_marquee",
            Preset::Raindrop => "raindrop",
            Preset::CircleMarquee => "circle_marquee",
            Preset::Hedge => "hedge",
            Preset::Rotate => "rotate",
        }
    }

    /// Whether the effect takes a color: all do but `Wave` and `Neon`.
    pub fn needs_color(&self) -> (needed: bool)
        ensures
            needed == self.spec_needs_color(),
    {
        match self {
            Preset::Wave => false,
            Preset::Neon => false,
            _ => true,
        }
    }

    /// Finds the preset that `name` names.
    pub fn from_name(name: &str) -> (found: Result<Preset, Error>)
        ensures
            found matches Ok(preset) ==> preset.spec_name() == name@,
            found matches Err(error) ==> error == Error::UnknownPresetName,
            forall|preset: Preset| #[trigger]
                preset.spec_name() == name@ ==> found == Ok::<Preset, Error>(preset),
    {
        let all = Preset::all();
        let wanted = String::from_str(name);
        let mut i: usize = 0;
        while i < 13
            invariant
                i <= 13,
                all@ == Preset::spec_all(),
                wanted@ == name@,
                forall|j: int| 0 <= j < i ==> (#[trigger] all@[j]).spec_name() != name@,
            decreases 13 - i,
        {
            let preset = all[i];
            let this = String::from_str(preset.name());
            if this == wanted {
                proof {
                    assert forall|other: Preset| other.spec_name() == name@ implies other
                        == preset by {
                        preset.lemma_name_injective(other);
                    }
                }
                return Ok(preset);
            }
            i += 1;
        }
        proof {
            assert forall|preset: Preset| preset.spec_name() != name@ by {
                preset.lemma_codes();
                assert(all@[preset.spec_code() - 1] == preset);
            }
        }
        Err(Error::UnknownPresetName)
    }
}

} // verus!
