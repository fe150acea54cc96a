//! The derived values of an electrical load: connected power, demand power
//! and current.
//!
//! Powers are in thousandths of a kilowatt or of a horsepower, voltages in
//! millivolts, currents in milliamperes, and the factors in thousandths.
//! Quotients are rounded up.

use vstd::prelude::*;
use crate::calculations::{ceil_div, ceil_div_of, lemma_ceil_div_at_most, lemma_product_within};

verus! {

/// The power factor assumed for a load that gives none, in thousandths.
pub const LOAD_POWER_FACTOR: i32 = 850;

/// The efficiency assumed for a load that gives none, in thousandths.
pub const LOAD_EFFICIENCY: i32 = 900;

/// The demand factor assumed for a load that gives none, in thousandths.
pub const LOAD_DEMAND_FACTOR: i32 = 1000;

/// What is known of a load before its values are derived.
#[derive(Debug, Clone, Copy, PartialEq, Eq)]
pub struct LoadRating {
    /// Rated power in thousandths of a kilowatt.
    pub power_kw: Option<i64>,
    /// Rated power in thousandths of a horsepower.
    pub power_hp: Option<i64>,
    /// Nominal voltage in millivolts.
    pub voltage: Option<i32>,
    /// Current in milliamperes, where it is known.
    pub current: Option<i32>,
    /// Power factor in thousandths.
    pub power_factor: Option<i32>,
    /// Efficiency in thousandths.
    pub efficiency: Option<i32>,
    /// Demand factor in thousandths.
    pub demand_factor: Option<i32>,
}

/// The derived values of a load.
#[derive(Debug, Clone, Copy, PartialEq, Eq)]
pub struct LoadValues {
    /// Connected power in thousandths of a kilowatt.
    pub connected_load_kw: Option<i64>,
    /// Demand power in thousandths of a kilowatt.
    pub demand_load_kw: Option<i128>,
    /// Current in milliamperes.
    pub current: Option<i128>,
}

/// A value, or the default where none is given.
pub open spec fn or_default(value: Option<i32>, default: int) -> int {
    match value {
        Some(v) => v as int,
        None => default,
    }
}

/// The connected power: the rated kilowatts, else the rated horsepower at
/// 0.746 kW each.
pub open spec fn connected_power(rating: LoadRating) -> Option<int> {
    match (rating.power_kw, rating.power_hp) {
        (Some(kw), _) => Some(kw as int),
        (None, Some(hp)) => Some(ceil_div(hp * 746, 1000)),
        (None, None) => None,
    }
}

/// The demand power: the connected power times the demand factor.
pub open spec fn demand_power(rating: LoadRating) -> Option<int> {
    match connected_power(rating) {
        Some(connected) => Some(
            ceil_div(connected * or_default(rating.demand_factor, 1000), 1000),
        ),
        None => None,
    }
}

/// The divisor of the current of a three-phase load: `1.732 × voltage ×
/// power factor × efficiency`, in units of 10⁻¹² V.
pub open spec fn current_divisor(rating: LoadRating, voltage: int) -> int {
    1732 * voltage * or_default(rating.power_factor, 850) * or_default(rating.efficiency, 900)
}

/// The current of a load: the known one, else that of a three-phase load of
/// the connected power, `power / (1.732 × voltage × power factor ×
/// efficiency)`, where the voltage is above zero and the divisor is not zero.
pub open spec fn load_current(rating: LoadRating) -> Option<int> {
    match (rating.current, connected_power(rating), rating.voltage) {
        (Some(current), _, _) => Some(current as int),
        (None, Some(connected), Some(voltage)) if voltage > 0 => {
            let divisor = current_divisor(rating, voltage as int);
            let watts = connected * 1_000_000_000_000_000;
            if divisor > 0 {
                Some(ceil_div(watts, divisor))
            } else if divisor < 0 {
                Some(ceil_div(-watts, -divisor))
            } else {
                None
            }
        },
        _ => None,
    }
}

/// The values of a load match what its rating gives.
pub open spec fn derived_from(values: LoadValues, rating: LoadRating) -> bool {
    &&& match connected_power(rating) {
        Some(connected) => values.connected_load_kw == Some(connected as i64) && i64::MIN
            <= connected <= i64::MAX,
        None => values.connected_load_kw is None,
    }
    &&& match demand_power(rating) {
        Some(demand) => values.demand_load_kw == Some(demand as i128) && i128::MIN <= demand
            <= i128::MAX,
        None => values.demand_load_kw is None,
    }
    &&& match load_current(rating) {
        Some(current) => values.current == Some(current as i128) && i128::MIN <= current
            <= i128::MAX,
        None => values.current is None,
    }
}

/// The connected power of a load.
pub fn connected_power_of(rating: &LoadRating) -> (r: Option<i64>)
    ensures
        match connected_power(*rating) {
            Some(connected) => r == Some(connected as i64) && i64::MIN <= connected <= i64::MAX,
            None => r is None,
        },
{
    match (rating.power_kw, rating.power_hp) {
        (Some(kw), _) => Some(kw),
        (None, Some(hp)) => {
            let watts = ceil_div_of(hp as i128 * 746, 1000);
            proof {
                lemma_ceil_div_at_most(hp * 746, 1000, 0x7FFF_FFFF_FFFF_FFFF);
                lemma_ceil_div_at_most(hp * 746, 1000, -0x8000_0000_0000_0000 - 1);
            }
            Some(watts as i64)
        },
        (None, None) => None,
    }
}

/// Derives the connected power, the demand power and the current of a load.
pub fn calculate_load_values(rating: &LoadRating) -> (values: LoadValues)
    ensures
        derived_from(values, *rating),
{
    let connected = connected_power_of(rating);
    let demand_factor: i32 = match rating.demand_factor {
        Some(factor) => factor,
        None => LOAD_DEMAND_FACTOR,
    };
    let demand = match connected {
        Some(watts) => {
            proof {
                lemma_product_within(
                    watts as int,
                    demand_factor as int,
                    0x8000_0000_0000_0000,
                    0x8000_0000,
                );
            }
            Some(ceil_div_of(watts as i128 * demand_factor as i128, 1000))
        },
        None => None,
    };
    let current = match (rating.current, connected, rating.voltage) {
        (Some(current), _, _) => Some(current as i128),
        (None, Some(watts), Some(voltage)) => {
            if voltage > 0 {
                let power_factor: i32 = match rating.power_factor {
                    Some(factor) => factor,
                    None => LOAD_POWER_FACTOR,
                };
                let efficiency: i32 = match rating.efficiency {
                    Some(factor) => factor,
                    None => LOAD_EFFICIENCY,
                };
                proof {
                    lemma_product_within(
                        1732 * voltage,
                        power_factor as int,
                        1732int * 0x8000_0000,
                        0x8000_0000,
                    );
                    lemma_product_within(
                        1732 * voltage * power_factor,
                        efficiency as int,
                        1732int * 0x8000_0000 * 0x8000_0000,
                        0x8000_0000,
                    );
                }
                let divisor: i128 = 1732 * (voltage as i128) * (power_factor as i128) * (
                efficiency as i128);
                let numerator: i128 = watts as i128 * 1_000_000_000_000_000;
                if divisor > 0 {
                    Some(ceil_div_of(numerator, divisor))
                } else if divisor < 0 {
                    Some(ceil_div_of(-numerator, -divisor))
                } else {
                    None
                }
            } else {
                None
            }
        },
        _ => None,
    };
    LoadValues { connected_load_kw: connected, demand_load_kw: demand, current }
}

} // verus!
