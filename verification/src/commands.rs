//! The simple command payloads beside the flame payload: the power toggle
//! and the preset selector. Both only wrap a fixed key and a small value
//! in the device command envelope; the preset value is validated before
//! any payload exists.

use vstd::prelude::*;
use vstd::string::StringExecFns;

verus! {

/// The appliance subsystems the power command can switch.
#[derive(Clone, Copy, Debug, PartialEq, Eq, Structural)]
pub enum PowerItem {
    System,
    Flame,
    Heater,
}

impl PowerItem {
    /// The device-parameter key of this subsystem.
    pub open spec fn spec_key(self) -> Seq<char> {
        match self {
            PowerItem::System => "101"@,
            PowerItem::Flame => "10"@,
            PowerItem::Heater => "1"@,
        }
    }

    /// The device-parameter key as text.
    pub fn key(self) -> (k: &'static str)
        ensures
            k@ == self.spec_key(),
    {
        match self {
            PowerItem::System => "101",
            PowerItem::Flame => "10",
            PowerItem::Heater => "1",
        }
    }
}

/// The device command text that switches a subsystem on or off.
pub open spec fn spec_power_payload(item: PowerItem, on: bool) -> Seq<char> {
    "{\"dps\":{\""@ + item.spec_key() + "\":"@ + (if on {
        "true"@
    } else {
        "false"@
    }) + "}}"@
}

/// Builds the device command text that switches a subsystem on or off.
pub fn power_payload(item: PowerItem, on: bool) -> (r: String)
    ensures
        r@ == spec_power_payload(item, on),
{
    let mut s = String::from_str("{\"dps\":{\"");
    s.append(item.key());
    s.append("\":");
    s.append(
        if on {
            "true"
        } else {
            "false"
        },
    );
    s.append("}}");
    s
}

/// Rejection of a preset command before any payload is built.
#[derive(Clone, Copy, Debug, PartialEq, Eq, Structural)]
pub enum PresetError {
    /// The requested preset is outside the range 1 to 9.
    OutOfRange,
}

impl PresetError {
    /// The text a front-end shows for this rejection.
    pub fn message(&self) -> (m: String)
        ensures
            m@ == "Preset is not in range (1 to 9)"@,
    {
        String::from_str("Preset is not in range (1 to 9)")
    }
}

/// The single digit of a valid preset number, as text; empty outside the
/// valid range.
pub open spec fn spec_preset_digit(n: u8) -> Seq<char> {
    if n == 1 {
        "1"@
    } else if n == 2 {
        "2"@
    } else if n == 3 {
        "3"@
    } else if n == 4 {
        "4"@
    } else if n == 5 {
        "5"@
    } else if n == 6 {
        "6"@
    } else if n == 7 {
        "7"@
    } else if n == 8 {
        "8"@
    } else if n == 9 {
        "9"@
    } else {
        Seq::empty()
    }
}

/// The device command text that selects a preset flame.
pub open spec fn spec_preset_payload(n: u8) -> Seq<char> {
    "{\"dps\":{\"102\":"@ + spec_preset_digit(n) + "}}"@
}

/// Builds the device command text that selects a preset flame, rejecting
/// any value outside 1 to 9 before a payload exists.
pub fn preset_payload(my_flame: u8) -> (r: Result<String, PresetError>)
    ensures
        r is Ok <==> 1 <= my_flame <= 9,
        r matches Ok(s) ==> s@ == spec_preset_payload(my_flame),
        r matches Err(e) ==> e == PresetError::OutOfRange,
{
    let digit: &str = match my_flame {
        1 => "1",
        2 => "2",
        3 => "3",
        4 => "4",
        5 => "5",
        6 => "6",
        7 => "7",
        8 => "8",
        9 => "9",
        _ => {
            return Err(PresetError::OutOfRange);
        },
    };
    let mut s = String::from_str("{\"dps\":{\"102\":");
    s.append(digit);
    s.append("}}");
    Ok(s)
}

} // verus!
