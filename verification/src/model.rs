//! The Flame model: the set of controllable appliance attributes that one
//! wire payload carries, and the composer that derives them from
//! real-world percentages.

use vstd::prelude::*;

verus! {

/// A colour the appliance's LED strings can show. Each colour is bound to a
/// fixed small code used directly in the wire encoding; the assignment is
/// part of the device protocol and must not change.
#[derive(Clone, Copy, Debug, PartialEq, Eq, Structural)]
pub enum Color {
    Red,
    Orange,
    Yellow,
    Green,
    Blue,
    Purple,
    Lilac,
    White,
    Rainbow,
    OrangeRedGlow,
    OrangeLilacGlow,
    BlueLilacGlow,
}

impl Color {
    /// The protocol code of this colour: Red is 1 and the codes run in the
    /// declaration order up to BlueLilacGlow at 12.
    pub open spec fn spec_code(self) -> u16 {
        match self {
            Color::Red => 1,
            Color::Orange => 2,
            Color::Yellow => 3,
            Color::Green => 4,
            Color::Blue => 5,
            Color::Purple => 6,
            Color::Lilac => 7,
            Color::White => 8,
            Color::Rainbow => 9,
            Color::OrangeRedGlow => 10,
            Color::OrangeLilacGlow => 11,
            Color::BlueLilacGlow => 12,
        }
    }

    /// The protocol code as a machine integer.
    #[verifier::when_used_as_spec(spec_code)]
    pub fn code(self) -> (c: u16)
        ensures
            c == self.spec_code(),
    {
        match self {
            Color::Red => 1,
            Color::Orange => 2,
            Color::Yellow => 3,
            Color::Green => 4,
            Color::Blue => 5,
            Color::Purple => 6,
            Color::Lilac => 7,
            Color::White => 8,
            Color::Rainbow => 9,
            Color::OrangeRedGlow => 10,
            Color::OrangeLilacGlow => 11,
            Color::BlueLilacGlow => 12,
        }
    }
}

/// A single-channel LED strip: one colour at one brightness.
#[derive(Clone, Copy, Debug, PartialEq, Eq, Structural)]
pub struct PrimaryLedString {
    pub on: bool,
    pub color: Color,
    pub brightness: u8,
}

impl PrimaryLedString {
    /// The 16-bit wire word of this string: the on flag at bit 9, the
    /// colour code in the high byte and the brightness in the low byte.
    pub open spec fn spec_word(self) -> u16 {
        ((if self.on {
            512int
        } else {
            0int
        }) + self.color.spec_code() * 256 + self.brightness) as u16
    }

    /// Packs the string into its 16-bit wire word.
    pub fn to_u16(&self) -> (w: u16)
        ensures
            w == self.spec_word(),
    {
        let on: u16 = if self.on {
            512
        } else {
            0
        };
        on + self.color.code() * 256 + (self.brightness as u16)
    }
}

/// A two-channel LED strip: as the single-channel strip, plus a flag that
/// synchronises the channel with the main flame animation.
#[derive(Clone, Copy, Debug, PartialEq, Eq, Structural)]
pub struct SecondaryLedString {
    pub on: bool,
    pub sync: bool,
    pub color: Color,
    pub brightness: u8,
}

impl SecondaryLedString {
    /// The 16-bit wire word of this string: the on flag at bit 10, the
    /// sync flag at bit 9, the colour code in the high byte and the
    /// brightness in the low byte.
    pub open spec fn spec_word(self) -> u16 {
        ((if self.on {
            1024int
        } else {
            0int
        }) + (if self.sync {
            512int
        } else {
            0int
        }) + self.color.spec_code() * 256 + self.brightness) as u16
    }

    /// Packs the string into its 16-bit wire word.
    pub fn to_u16(&self) -> (w: u16)
        ensures
            w == self.spec_word(),
    {
        let on: u16 = if self.on {
            1024
        } else {
            0
        };
        let sync: u16 = if self.sync {
            512
        } else {
            0
        };
        on + sync + self.color.code() * 256 + (self.brightness as u16)
    }
}

/// The mood light: a free palette index instead of a fixed colour. In this
/// appliance core it is always constructed off and never driven by any
/// derived parameter; that inert state is deliberate.
#[derive(Clone, Copy, Debug, PartialEq, Eq, Structural)]
pub struct MoodLightLedString {
    pub on: bool,
    pub color: u8,
    pub brightness: u8,
}

impl MoodLightLedString {
    /// The wire word only has room for the on flag at bit 9 when the
    /// palette index keeps clear of the top bits; an index this high with
    /// the light on cannot be packed.
    pub open spec fn fits_word(self) -> bool {
        self.on ==> self.color <= 253
    }

    /// The 16-bit wire word of the mood light: the on flag at bit 9, the
    /// palette index in the high byte and the brightness in the low byte.
    pub open spec fn spec_word(self) -> u16 {
        ((if self.on {
            512int
        } else {
            0int
        }) + self.color * 256 + self.brightness) as u16
    }

    /// Packs the mood light into its 16-bit wire word.
    pub fn to_u16(&self) -> (w: u16)
        requires
            self.fits_word(),
        ensures
            w == self.spec_word(),
    {
        let on: u16 = if self.on {
            512
        } else {
            0
        };
        on + (self.color as u16) * 256 + (self.brightness as u16)
    }

    /// The inert mood light: off, on the first palette index, dark.
    pub fn off() -> (m: MoodLightLedString)
        ensures
            m == (MoodLightLedString { on: false, color: 1, brightness: 0 }),
    {
        MoodLightLedString { on: false, color: 1, brightness: 0 }
    }
}

/// The aggregate appliance state: every controllable light channel and the
/// flame animation speed, composed into one wire payload.
#[derive(Clone, Copy, Debug, PartialEq, Eq, Structural)]
pub struct Flame {
    pub main_flame: PrimaryLedString,
    pub flame_palette: SecondaryLedString,
    pub fuel_bed: PrimaryLedString,
    pub glowing_logs: SecondaryLedString,
    pub mood_light: MoodLightLedString,
    pub down_light: SecondaryLedString,
    pub flame_speed: u8,
}

/// Caps a raw percentage input at 100. Inputs are unsigned, so capping is
/// the only clamping direction needed.
pub open spec fn clamp_pct(x: u8) -> int {
    if x > 100 {
        100
    } else {
        x as int
    }
}

impl Flame {
    /// A Flame can be packed into wire words whenever its mood light can;
    /// every other channel always fits.
    pub open spec fn wf(self) -> bool {
        self.mood_light.fits_word()
    }

    /// The baseline appliance state: all strings on at full brightness in
    /// a yellow/red composition, mood light off, a brisk animation.
    pub open spec fn spec_new() -> Flame {
        Flame {
            main_flame: PrimaryLedString { on: true, color: Color::Yellow, brightness: 100 },
            flame_palette: SecondaryLedString {
                on: true,
                sync: false,
                color: Color::Red,
                brightness: 100,
            },
            fuel_bed: PrimaryLedString { on: true, color: Color::Red, brightness: 100 },
            glowing_logs: SecondaryLedString {
                on: true,
                sync: false,
                color: Color::OrangeRedGlow,
                brightness: 100,
            },
            mood_light: MoodLightLedString { on: false, color: 1, brightness: 0 },
            down_light: SecondaryLedString {
                on: true,
                sync: false,
                color: Color::Red,
                brightness: 100,
            },
            flame_speed: 60,
        }
    }

    /// Builds the baseline appliance state.
    pub fn new() -> (f: Flame)
        ensures
            f == Flame::spec_new(),
            f.wf(),
    {
        Flame {
            main_flame: PrimaryLedString { on: true, color: Color::Yellow, brightness: 100 },
            flame_palette: SecondaryLedString {
                on: true,
                sync: false,
                color: Color::Red,
                brightness: 100,
            },
            fuel_bed: PrimaryLedString { on: true, color: Color::Red, brightness: 100 },
            glowing_logs: SecondaryLedString {
                on: true,
                sync: false,
                color: Color::OrangeRedGlow,
                brightness: 100,
            },
            mood_light: MoodLightLedString::off(),
            down_light: SecondaryLedString {
                on: true,
                sync: false,
                color: Color::Red,
                brightness: 100,
            },
            flame_speed: 60,
        }
    }

    /// The state `summon_fire` derives from the three percentages, after
    /// capping each at 100. Brightness formulas use truncating integer
    /// division; the down light is derived from the fuel bed value before
    /// the dimming correction, which is applied to the bed afterwards.
    pub open spec fn spec_summon_fire(bed_temp: u8, fuel_level: u8, draw: u8) -> Flame {
        let bt = clamp_pct(bed_temp);
        let fl = clamp_pct(fuel_level);
        let dr = clamp_pct(draw);
        let main_b = (2 * fl + 3 * dr) / 5;
        let palette_b = (3 * fl + 2 * dr) / 5;
        let bed_pre = bt / 5 + (bt * dr) / 180;
        let logs_b = bt / 2 + (bt * dr) / 200;
        let down_b = (main_b + main_b + 2 * bed_pre) / 4;
        let speed = if dr / 2 >= 1 {
            dr / 2
        } else {
            1
        };
        Flame {
            main_flame: PrimaryLedString { on: true, color: Color::Yellow, brightness: main_b as u8 },
            flame_palette: SecondaryLedString {
                on: true,
                sync: false,
                color: Color::Red,
                brightness: palette_b as u8,
            },
            fuel_bed: PrimaryLedString {
                on: true,
                color: Color::Red,
                brightness: ((bed_pre * 2) / 3) as u8,
            },
            glowing_logs: SecondaryLedString {
                on: true,
                sync: false,
                color: Color::OrangeRedGlow,
                brightness: logs_b as u8,
            },
            mood_light: MoodLightLedString { on: false, color: 1, brightness: 0 },
            down_light: SecondaryLedString {
                on: true,
                sync: false,
                color: Color::Red,
                brightness: down_b as u8,
            },
            flame_speed: speed as u8,
        }
    }

    /// Uses "real world" parameters to dynamically configure the fire.
    ///
    /// The three parameters, each expressed as a percent, represent the
    /// temperature of the fuel bed, the fuel level and whether the fire is
    /// being allowed to draw in air (to control the burn rate). Values
    /// above 100 are treated as 100.
    pub fn summon_fire(bed_temp: u8, fuel_level: u8, draw: u8) -> (f: Flame)
        ensures
            f == Flame::spec_summon_fire(bed_temp, fuel_level, draw),
            f.wf(),
    {
        let mut flame = Flame::new();

        let bt: u32 = if bed_temp > 100 {
            100
        } else {
            bed_temp as u32
        };
        let fl: u32 = if fuel_level > 100 {
            100
        } else {
            fuel_level as u32
        };
        let dr: u32 = if draw > 100 {
            100
        } else {
            draw as u32
        };

        proof {
            assert(bt * dr <= 10000) by (nonlinear_arith)
                requires
                    bt <= 100,
                    dr <= 100,
            ;
        }

        // main flame brightness is controlled by draw and fuel level
        flame.main_flame.brightness = ((2 * fl + 3 * dr) / 5) as u8;
        // flame speed is entirely controlled by the draw
        let half_draw: u32 = dr / 2;
        flame.flame_speed = if half_draw >= 1 {
            half_draw as u8
        } else {
            1
        };

        // flame palette brightness is controlled by draw and fuel level
        flame.flame_palette.brightness = ((3 * fl + 2 * dr) / 5) as u8;

        // fuel bed is controlled by bed temp and draw
        flame.fuel_bed.brightness = ((bt / 5) + (bt * dr) / 180) as u8;

        // glowing logs are controlled by bed temp and draw (but more bed temp)
        flame.glowing_logs.brightness = ((bt / 2) + (bt * dr) / 200) as u8;

        // down light is controlled by the brightness of the rest of the fire
        flame.down_light.brightness = ((flame.main_flame.brightness as u32
            + flame.main_flame.brightness as u32 + 2 * flame.fuel_bed.brightness as u32) / 4) as u8;

        // The fuel bed is generally too bright, so post-process to dim the
        // bed a little without touching the down light derived from it.
        flame.fuel_bed.brightness = (((flame.fuel_bed.brightness as u32) * 2) / 3) as u8;

        flame
    }
}

/// Every brightness `summon_fire` derives is a percentage within [0, 100],
/// and the flame speed never stalls at zero, whatever the raw inputs.
pub proof fn lemma_summon_fire_bounds(bed_temp: u8, fuel_level: u8, draw: u8)
    ensures
        Flame::spec_summon_fire(bed_temp, fuel_level, draw).main_flame.brightness <= 100,
        Flame::spec_summon_fire(bed_temp, fuel_level, draw).flame_palette.brightness <= 100,
        Flame::spec_summon_fire(bed_temp, fuel_level, draw).fuel_bed.brightness <= 100,
        Flame::spec_summon_fire(bed_temp, fuel_level, draw).glowing_logs.brightness <= 100,
        Flame::spec_summon_fire(bed_temp, fuel_level, draw).down_light.brightness <= 100,
        Flame::spec_summon_fire(bed_temp, fuel_level, draw).flame_speed >= 1,
        Flame::spec_summon_fire(bed_temp, fuel_level, draw).flame_speed <= 50,
{
    let bt = clamp_pct(bed_temp);
    let dr = clamp_pct(draw);
    assert(bt * dr <= 10000 && bt * dr >= 0) by (nonlinear_arith)
        requires
            0 <= bt <= 100,
            0 <= dr <= 100,
    ;
}

/// `summon_fire` is invariant to raw inputs above 100: each input acts only
/// through its capped value.
pub proof fn lemma_summon_fire_clamped(bed_temp: u8, fuel_level: u8, draw: u8)
    ensures
        Flame::spec_summon_fire(bed_temp, fuel_level, draw) == Flame::spec_summon_fire(
            (if bed_temp > 100 {
                100
            } else {
                bed_temp
            }),
            (if fuel_level > 100 {
                100
            } else {
                fuel_level
            }),
            (if draw > 100 {
                100
            } else {
                draw
            }),
        ),
{
}

} // verus!
