//! Rough load currents, and the voltage drop of a cable of a schedule.

use vstd::prelude::*;
use vstd::string::*;
use crate::cable::{Cable, CableModel};
use crate::calculations::{
    voltage_drop_for_size, voltage_drop_report, DEFAULT_POWER_FACTOR,
};
use crate::conductor::{resolve_size, resolved_size, ConductorMaterial};
use crate::cable::text_of;
use crate::segregation::{
    function_is_power, function_is_signal, is_power_function, is_signal_function,
};
use crate::text::{contains, contains_text, to_uppercase, uppercase_of};

verus! {

/// The current, in milliamperes, that a power or lighting cable of a size is
/// taken to carry. The size is in upper case; the first number found in it,
/// in the order 18, 16, 14, 12, 10, 8, 6, 4, 2, decides.
pub open spec fn power_current(upper: Seq<char>) -> int {
    if contains_text(upper, "18"@) {
        10_000
    } else if contains_text(upper, "16"@) {
        13_000
    } else if contains_text(upper, "14"@) {
        15_000
    } else if contains_text(upper, "12"@) {
        20_000
    } else if contains_text(upper, "10"@) {
        30_000
    } else if contains_text(upper, "8"@) {
        40_000
    } else if contains_text(upper, "6"@) {
        55_000
    } else if contains_text(upper, "4"@) {
        70_000
    } else if contains_text(upper, "2"@) {
        95_000
    } else {
        20_000
    }
}

/// The current, in milliamperes, that a signal, control or communication
/// cable of a size is taken to carry.
pub open spec fn signal_current(upper: Seq<char>) -> int {
    if contains_text(upper, "18"@) || contains_text(upper, "20"@) || contains_text(upper, "22"@) {
        100
    } else if contains_text(upper, "16"@) {
        200
    } else if contains_text(upper, "14"@) {
        500
    } else {
        100
    }
}

/// The current that a cable is taken to carry, by its function and its size
/// in upper case; zero for a cable of unknown function.
pub open spec fn estimated_current(function: Option<Seq<char>>, upper: Seq<char>) -> int {
    if is_power_function(function) {
        power_current(upper)
    } else if is_signal_function(function) {
        signal_current(upper)
    } else {
        0
    }
}

/// The voltage drop of a cable in thousandths of a percent, for a copper
/// conductor and the default power factor: given where the cable has a
/// voltage other than zero, a length and a size that stands for a standard
/// size, and where its function gives a current.
pub open spec fn cable_drop_percentage(cable: CableModel) -> Option<int> {
    match (cable.voltage, cable.length, cable.size) {
        (Some(voltage), Some(length), Some(size)) => {
            let current = estimated_current(cable.function, uppercase_of(size));
            match resolved_size(size) {
                Some(listed) if current > 0 => voltage_drop_report(
                    voltage as int,
                    current,
                    length as int,
                    listed.resistance_micro_ohms(ConductorMaterial::Copper),
                    DEFAULT_POWER_FACTOR as int,
                ).voltage_drop_percentage,
                _ => None,
            }
        },
        _ => None,
    }
}

/// The current of a power or lighting cable whose size is given in upper
/// case.
pub fn power_current_for(upper: &str) -> (r: i32)
    ensures
        r == power_current(upper@),
{
    if contains(upper, "18") {
        10_000
    } else if contains(upper, "16") {
        13_000
    } else if contains(upper, "14") {
        15_000
    } else if contains(upper, "12") {
        20_000
    } else if contains(upper, "10") {
        30_000
    } else if contains(upper, "8") {
        40_000
    } else if contains(upper, "6") {
        55_000
    } else if contains(upper, "4") {
        70_000
    } else if contains(upper, "2") {
        95_000
    } else {
        20_000
    }
}

/// The current of a signal, control or communication cable whose size is
/// given in upper case.
pub fn signal_current_for(upper: &str) -> (r: i32)
    ensures
        r == signal_current(upper@),
{
    if contains(upper, "18") || contains(upper, "20") || contains(upper, "22") {
        100
    } else if contains(upper, "16") {
        200
    } else if contains(upper, "14") {
        500
    } else {
        100
    }
}

/// The current that a cable is taken to carry, with its size given in upper
/// case.
pub fn estimate_current_for(function: &Option<String>, upper: &str) -> (r: i32)
    ensures
        r == estimated_current(text_of(*function), upper@),
        0 <= r <= 95_000,
{
    if function_is_power(function) {
        power_current_for(upper)
    } else if function_is_signal(function) {
        signal_current_for(upper)
    } else {
        0
    }
}

/// The current that a cable of a size is taken to carry, by its function.
pub fn estimate_cable_current(function: &Option<String>, size: &str) -> (r: i32)
    ensures
        r == estimated_current(text_of(*function), uppercase_of(size@)),
{
    let upper = to_uppercase(size);
    estimate_current_for(function, upper.as_str())
}

/// The voltage drop of a cable in thousandths of a percent, on its
/// estimated current, for a copper conductor and the default power factor.
pub fn cable_voltage_drop(cable: &Cable) -> (r: Option<i128>)
    ensures
        match cable_drop_percentage(cable@) {
            Some(percentage) => r == Some(percentage as i128) && i128::MIN <= percentage
                <= i128::MAX,
            None => r is None,
        },
{
    match (cable.voltage, cable.length, &cable.size) {
        (Some(voltage), Some(length), Some(size)) => {
            let current = estimate_cable_current(&cable.function, size.as_str());
            if current > 0 {
                match resolve_size(size.as_str()) {
                    Some(listed) => voltage_drop_for_size(
                        voltage,
                        current,
                        length,
                        listed,
                        ConductorMaterial::Copper,
                        DEFAULT_POWER_FACTOR,
                    ).voltage_drop_percentage,
                    None => None,
                }
            } else {
                None
            }
        },
        _ => None,
    }
}

} // verus!
