use vstd::prelude::*;

use crate::text::{lower_of, lowercase, str_equal};

verus! {

/// Number of lighting effects the firmware offers.
pub const EFFECT_COUNT: usize = 19;

/// Lighting effects of the keyboard's RGB matrix, in firmware code order.
#[derive(Debug, Clone, Copy, PartialEq, Eq, Structural)]
pub enum RgbEffect {
    Off,
    Wave,
    ColourCloud,
    Vortex,
    MixColour,
    Breathe,
    Light,
    SlowlyOff,
    Stone,
    Laser,
    Starry,
    FlowersOpen,
    Traverse,
    WaveBar,
    Meteor,
    Rain,
    Scan,
    TriggerColour,
    CenterSpread,
}

/// The effect that a lower-case alias names, if any.
pub open spec fn effect_for_alias(s: Seq<char>) -> Option<RgbEffect> {
    if s == "off"@ {
        Some(RgbEffect::Off)
    } else if s == "wave"@ {
        Some(RgbEffect::Wave)
    } else if s == "colourcloud"@ || s == "colour_cloud"@ || s == "color_cloud"@ {
        Some(RgbEffect::ColourCloud)
    } else if s == "vortex"@ {
        Some(RgbEffect::Vortex)
    } else if s == "mixcolour"@ || s == "mix_colour"@ || s == "mix_color"@ {
        Some(RgbEffect::MixColour)
    } else if s == "breathe"@ {
        Some(RgbEffect::Breathe)
    } else if s == "light"@ {
        Some(RgbEffect::Light)
    } else if s == "slowlyoff"@ || s == "slowly_off"@ {
        Some(RgbEffect::SlowlyOff)
    } else if s == "stone"@ {
        Some(RgbEffect::Stone)
    } else if s == "laser"@ {
        Some(RgbEffect::Laser)
    } else if s == "starry"@ {
        Some(RgbEffect::Starry)
    } else if s == "flowersopen"@ || s == "flowers_open"@ {
        Some(RgbEffect::FlowersOpen)
    } else if s == "traverse"@ {
        Some(RgbEffect::Traverse)
    } else if s == "wavebar"@ || s == "wave_bar"@ {
        Some(RgbEffect::WaveBar)
    } else if s == "meteor"@ {
        Some(RgbEffect::Meteor)
    } else if s == "rain"@ {
        Some(RgbEffect::Rain)
    } else if s == "scan"@ {
        Some(RgbEffect::Scan)
    } else if s == "triggercolour"@ || s == "trigger_colour"@ || s == "trigger_color"@ {
        Some(RgbEffect::TriggerColour)
    } else if s == "centerspread"@ || s == "center_spread"@ {
        Some(RgbEffect::CenterSpread)
    } else {
        None
    }
}

/// The effect that a name of any case names: its lower-case form is looked up.
pub open spec fn effect_for_name(name: Seq<char>) -> Option<RgbEffect> {
    effect_for_alias(lower_of(name))
}

impl RgbEffect {
    /// The firmware's code for this effect.
    pub open spec fn spec_code(self) -> u8 {
        match self {
            RgbEffect::Off => 0,
            RgbEffect::Wave => 1,
            RgbEffect::ColourCloud => 2,
            RgbEffect::Vortex => 3,
            RgbEffect::MixColour => 4,
            RgbEffect::Breathe => 5,
            RgbEffect::Light => 6,
            RgbEffect::SlowlyOff => 7,
            RgbEffect::Stone => 8,
            RgbEffect::Laser => 9,
            RgbEffect::Starry => 10,
            RgbEffect::FlowersOpen => 11,
            RgbEffect::Traverse => 12,
            RgbEffect::WaveBar => 13,
            RgbEffect::Meteor => 14,
            RgbEffect::Rain => 15,
            RgbEffect::Scan => 16,
            RgbEffect::TriggerColour => 17,
            RgbEffect::CenterSpread => 18,
        }
    }

    /// The firmware's code for this effect, as sent on the wire.
    pub fn code(&self) -> (r: u8)
        ensures
            r == self.spec_code(),
    {
        match self {
            RgbEffect::Off => 0,
            RgbEffect::Wave => 1,
            RgbEffect::ColourCloud => 2,
            RgbEffect::Vortex => 3,
            RgbEffect::MixColour => 4,
            RgbEffect::Breathe => 5,
            RgbEffect::Light => 6,
            RgbEffect::SlowlyOff => 7,
            RgbEffect::Stone => 8,
            RgbEffect::Laser => 9,
            RgbEffect::Starry => 10,
            RgbEffect::FlowersOpen => 11,
            RgbEffect::Traverse => 12,
            RgbEffect::WaveBar => 13,
            RgbEffect::Meteor => 14,
            RgbEffect::Rain => 15,
            RgbEffect::Scan => 16,
            RgbEffect::TriggerColour => 17,
            RgbEffect::CenterSpread => 18,
        }
    }

    /// The display name of this effect, with the UK spelling of "Colour".
    pub open spec fn spec_display_name(self) -> Seq<char> {
        match self {
            RgbEffect::Off => "Off"@,
            RgbEffect::Wave => "Wave"@,
            RgbEffect::ColourCloud => "Colour Cloud"@,
            RgbEffect::Vortex => "Vortex"@,
            RgbEffect::MixColour => "Mix Colour"@,
            RgbEffect::Breathe => "Breathe"@,
            RgbEffect::Light => "Light"@,
            RgbEffect::SlowlyOff => "Slowly Off"@,
            RgbEffect::Stone => "Stone"@,
            RgbEffect::Laser => "Laser"@,
            RgbEffect::Starry => "Starry"@,
            RgbEffect::FlowersOpen => "Flowers Open"@,
            RgbEffect::Traverse => "Traverse"@,
            RgbEffect::WaveBar => "Wave Bar"@,
            RgbEffect::Meteor => "Meteor"@,
            RgbEffect::Rain => "Rain"@,
            RgbEffect::Scan => "Scan"@,
            RgbEffect::TriggerColour => "Trigger Colour"@,
            RgbEffect::CenterSpread => "Center Spread"@,
        }
    }

    /// The display name of this effect.
    pub fn display_name(&self) -> (r: &'static str)
        ensures
            r@ == self.spec_display_name(),
    {
        match self {
            RgbEffect::Off => "Off",
            RgbEffect::Wave => "Wave",
            RgbEffect::ColourCloud => "Colour Cloud",
            RgbEffect::Vortex => "Vortex",
            RgbEffect::MixColour => "Mix Colour",
            RgbEffect::Breathe => "Breathe",
            RgbEffect::Light => "Light",
            RgbEffect::SlowlyOff => "Slowly Off",
            RgbEffect::Stone => "Stone",
            RgbEffect::Laser => "Laser",
            RgbEffect::Starry => "Starry",
            RgbEffect::FlowersOpen => "Flowers Open",
            RgbEffect::Traverse => "Traverse",
            RgbEffect::WaveBar => "Wave Bar",
            RgbEffect::Meteor => "Meteor",
            RgbEffect::Rain => "Rain",
            RgbEffect::Scan => "Scan",
            RgbEffect::TriggerColour => "Trigger Colour",
            RgbEffect::CenterSpread => "Center Spread",
        }
    }

    /// The lower-case identifier of this effect: its variant name run together.
    pub open spec fn spec_identifier(self) -> Seq<char> {
        match self {
            RgbEffect::Off => "off"@,
            RgbEffect::Wave => "wave"@,
            RgbEffect::ColourCloud => "colourcloud"@,
            RgbEffect::Vortex => "vortex"@,
            RgbEffect::MixColour => "mixcolour"@,
            RgbEffect::Breathe => "breathe"@,
            RgbEffect::Light => "light"@,
            RgbEffect::SlowlyOff => "slowlyoff"@,
            RgbEffect::Stone => "stone"@,
            RgbEffect::Laser => "laser"@,
            RgbEffect::Starry => "starry"@,
            RgbEffect::FlowersOpen => "flowersopen"@,
            RgbEffect::Traverse => "traverse"@,
            RgbEffect::WaveBar => "wavebar"@,
            RgbEffect::Meteor => "meteor"@,
            RgbEffect::Rain => "rain"@,
            RgbEffect::Scan => "scan"@,
            RgbEffect::TriggerColour => "triggercolour"@,
            RgbEffect::CenterSpread => "centerspread"@,
        }
    }

    /// The lower-case identifier of this effect, as listings show it.
    pub fn identifier(&self) -> (r: &'static str)
        ensures
            r@ == self.spec_identifier(),
    {
        match self {
            RgbEffect::Off => "off",
            RgbEffect::Wave => "wave",
            RgbEffect::ColourCloud => "colourcloud",
            RgbEffect::Vortex => "vortex",
            RgbEffect::MixColour => "mixcolour",
            RgbEffect::Breathe => "breathe",
            RgbEffect::Light => "light",
            RgbEffect::SlowlyOff => "slowlyoff",
            RgbEffect::Stone => "stone",
            RgbEffect::Laser => "laser",
            RgbEffect::Starry => "starry",
            RgbEffect::FlowersOpen => "flowersopen",
            RgbEffect::Traverse => "traverse",
            RgbEffect::WaveBar => "wavebar",
            RgbEffect::Meteor => "meteor",
            RgbEffect::Rain => "rain",
            RgbEffect::Scan => "scan",
            RgbEffect::TriggerColour => "triggercolour",
            RgbEffect::CenterSpread => "centerspread",
        }
    }

    /// Looks up a lower-case alias; anything outside the alias table gives `None`.
    pub fn from_lowercase_name(name: &str) -> (r: Option<RgbEffect>)
        ensures
            r == effect_for_alias(name@),
    {
        if str_equal(name, "off") {
            Some(RgbEffect::Off)
        } else if str_equal(name, "wave") {
            Some(RgbEffect::Wave)
        } else if str_equal(name, "colourcloud") || str_equal(name, "colour_cloud") || str_equal(
            name,
            "color_cloud",
        ) {
            Some(RgbEffect::ColourCloud)
        } else if str_equal(name, "vortex") {
            Some(RgbEffect::Vortex)
        } else if str_equal(name, "mixcolour") || str_equal(name, "mix_colour") || str_equal(
            name,
            "mix_color",
        ) {
            Some(RgbEffect::MixColour)
        } else if str_equal(name, "breathe") {
            Some(RgbEffect::Breathe)
        } else if str_equal(name, "light") {
            Some(RgbEffect::Light)
        } else if str_equal(name, "slowlyoff") || str_equal(name, "slowly_off") {
            Some(RgbEffect::SlowlyOff)
        } else if str_equal(name, "stone") {
            Some(RgbEffect::Stone)
        } else if str_equal(name, "laser") {
            Some(RgbEffect::Laser)
        } else if str_equal(name, "starry") {
            Some(RgbEffect::Starry)
        } else if str_equal(name, "flowersopen") || str_equal(name, "flowers_open") {
            Some(RgbEffect::FlowersOpen)
        } else if str_equal(name, "traverse") {
            Some(RgbEffect::Traverse)
        } else if str_equal(name, "wavebar") || str_equal(name, "wave_bar") {
            Some(RgbEffect::WaveBar)
        } else if str_equal(name, "meteor") {
            Some(RgbEffect::Meteor)
        } else if str_equal(name, "rain") {
            Some(RgbEffect::Rain)
        } else if str_equal(name, "scan") {
            Some(RgbEffect::Scan)
        } else if str_equal(name, "triggercolour") || str_equal(name, "trigger_colour")
            || str_equal(name, "trigger_color") {
            Some(RgbEffect::TriggerColour)
        } else if str_equal(name, "centerspread") || str_equal(name, "center_spread") {
            Some(RgbEffect::CenterSpread)
        } else {
            None
        }
    }

    /// Parses an effect from its name, ignoring case.
    pub fn from_name(name: &str) -> (r: Option<RgbEffect>)
        ensures
            r == effect_for_name(name@),
    {
        let lower = lowercase(name);
        RgbEffect::from_lowercase_name(lower.as_str())
    }

    /// Every effect, in ascending code order.
    pub fn all() -> (r: Vec<RgbEffect>)
        ensures
            r@.len() == EFFECT_COUNT,
            forall|i: int| 0 <= i < r@.len() ==> (#[trigger] r@[i]).spec_code() == i,
            r@.no_duplicates(),
            forall|e: RgbEffect| r@.contains(e),
    {
        let r = vec![
            RgbEffect::Off,
            RgbEffect::Wave,
            RgbEffect::ColourCloud,
            RgbEffect::Vortex,
            RgbEffect::MixColour,
            RgbEffect::Breathe,
            RgbEffect::Light,
            RgbEffect::SlowlyOff,
            RgbEffect::Stone,
            RgbEffect::Laser,
            RgbEffect::Starry,
            RgbEffect::FlowersOpen,
            RgbEffect::Traverse,
            RgbEffect::WaveBar,
            RgbEffect::Meteor,
            RgbEffect::Rain,
            RgbEffect::Scan,
            RgbEffect::TriggerColour,
            RgbEffect::CenterSpread,
        ];
        proof {
            lemma_listing_complete(r@);
        }
        r
    }
}

/// Two effects with the same code are the same effect.
pub proof fn lemma_code_injective(a: RgbEffect, b: RgbEffect)
    ensures
        a.spec_code() == b.spec_code() ==> a == b,
{
}

/// A listing that holds the effect with code `i` at each position `i` below
/// the number of effects holds every effect, each once.
pub proof fn lemma_listing_complete(s: Seq<RgbEffect>)
    requires
        s.len() == EFFECT_COUNT,
        forall|i: int| 0 <= i < s.len() ==> (#[trigger] s[i]).spec_code() == i,
    ensures
        s.no_duplicates(),
        forall|e: RgbEffect| s.contains(e),
{
    assert forall|i: int, j: int| 0 <= i < s.len() && 0 <= j < s.len() && i != j implies s[i]
        != s[j] by {
        assert(s[i].spec_code() == i);
        assert(s[j].spec_code() == j);
    }
    assert forall|e: RgbEffect| s.contains(e) by {
        let i = e.spec_code() as int;
        lemma_code_injective(s[i], e);
    }
}

/// Every effect's identifier is one of its aliases: looking the identifier up
/// gives the effect back.
pub proof fn lemma_identifier_round_trip(e: RgbEffect)
    ensures
        effect_for_alias(e.spec_identifier()) == Some(e),
{
    reveal_strlit("off");
    reveal_strlit("rain");
    reveal_strlit("scan");
    reveal_strlit("wave");
    reveal_strlit("laser");
    reveal_strlit("light");
    reveal_strlit("stone");
    reveal_strlit("meteor");
    reveal_strlit("starry");
    reveal_strlit("vortex");
    reveal_strlit("breathe");
    reveal_strlit("wavebar");
    reveal_strlit("traverse");
    reveal_strlit("wave_bar");
    reveal_strlit("mix_color");
    reveal_strlit("mixcolour");
    reveal_strlit("slowlyoff");
    reveal_strlit("mix_colour");
    reveal_strlit("slowly_off");
    reveal_strlit("color_cloud");
    reveal_strlit("colourcloud");
    reveal_strlit("flowersopen");
    reveal_strlit("centerspread");
    reveal_strlit("colour_cloud");
    reveal_strlit("flowers_open");
    reveal_strlit("trigger_color");
    reveal_strlit("triggercolour");
    reveal_strlit("trigger_colour");
    assert("off"@.len() == 3);
    assert("rain"@.len() == 4);
    assert("scan"@.len() == 4);
    assert("wave"@.len() == 4);
    assert("laser"@.len() == 5);
    assert("light"@.len() == 5);
    assert("stone"@.len() == 5);
    assert("meteor"@.len() == 6);
    assert("starry"@.len() == 6);
    assert("vortex"@.len() == 6);
    assert("breathe"@.len() == 7);
    assert("wavebar"@.len() == 7);
    assert("traverse"@.len() == 8);
    assert("wave_bar"@.len() == 8);
    assert("mix_color"@.len() == 9);
    assert("mixcolour"@.len() == 9);
    assert("slowlyoff"@.len() == 9);
    assert("mix_colour"@.len() == 10);
    assert("slowly_off"@.len() == 10);
    assert("color_cloud"@.len() == 11);
    assert("colourcloud"@.len() == 11);
    assert("flowersopen"@.len() == 11);
    assert("centerspread"@.len() == 12);
    assert("colour_cloud"@.len() == 12);
    assert("flowers_open"@.len() == 12);
    assert("trigger_color"@.len() == 13);
    assert("triggercolour"@.len() == 13);
    assert("trigger_colour"@.len() == 14);
    match e {
        RgbEffect::Off => {},
        RgbEffect::Wave => {},
        RgbEffect::ColourCloud => {},
        RgbEffect::Vortex => {},
        RgbEffect::MixColour => {},
        RgbEffect::Breathe => {},
        RgbEffect::Light => {},
        RgbEffect::SlowlyOff => {
            assert("mixcolour"@[0] != "slowlyoff"@[0]);
            assert("mix_color"@[0] != "slowlyoff"@[0]);
        },
        RgbEffect::Stone => {
            assert("light"@[0] != "stone"@[0]);
        },
        RgbEffect::Laser => {
            assert("light"@[1] != "laser"@[1]);
            assert("stone"@[0] != "laser"@[0]);
        },
        RgbEffect::Starry => {
            assert("vortex"@[0] != "starry"@[0]);
        },
        RgbEffect::FlowersOpen => {
            assert("colourcloud"@[0] != "flowersopen"@[0]);
            assert("color_cloud"@[0] != "flowersopen"@[0]);
        },
        RgbEffect::Traverse => {},
        RgbEffect::WaveBar => {
            assert("breathe"@[0] != "wavebar"@[0]);
        },
        RgbEffect::Meteor => {
            assert("vortex"@[0] != "meteor"@[0]);
            assert("starry"@[0] != "meteor"@[0]);
        },
        RgbEffect::Rain => {
            assert("wave"@[0] != "rain"@[0]);
        },
        RgbEffect::Scan => {
            assert("wave"@[0] != "scan"@[0]);
            assert("rain"@[0] != "scan"@[0]);
        },
        RgbEffect::TriggerColour => {},
        RgbEffect::CenterSpread => {
            assert("colour_cloud"@[1] != "centerspread"@[1]);
            assert("flowers_open"@[0] != "centerspread"@[0]);
        },
    }
}

/// Looking a name up ignores case: two names with the same lower-case form
/// name the same effect, or both name none.
pub proof fn lemma_lookup_ignores_case(a: Seq<char>, b: Seq<char>)
    requires
        lower_of(a) == lower_of(b),
    ensures
        effect_for_name(a) == effect_for_name(b),
{
}

/// A color in hue, saturation and value, one byte each.
#[derive(Debug, Clone, Copy, PartialEq, Eq, Structural)]
pub struct HsvColor {
    pub hue: u8,
    pub saturation: u8,
    pub value: u8,
}

impl HsvColor {
    pub fn new(hue: u8, saturation: u8, value: u8) -> (r: HsvColor)
        ensures
            r.hue == hue,
            r.saturation == saturation,
            r.value == value,
    {
        HsvColor { hue, saturation, value }
    }
}

} // verus!
