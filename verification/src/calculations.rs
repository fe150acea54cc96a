//! Voltage drop, conductor sizing and current estimation.
//!
//! Quantities are fixed-point numbers in thousandths of their unit, held in
//! integers: millivolts, milliamperes, thousandths of a foot, thousandths of
//! a percent, and a power factor in thousandths (850 stands for 0.85).
//! Resistances are micro-ohms per 1000 feet. Every decision is taken on the
//! exact product; a reported quotient is rounded up to the next thousandth,
//! so that a report never understates a drop or a current.

pub use crate::conductor::ConductorMaterial;
use vstd::prelude::*;
use vstd::string::*;
use vstd::arithmetic::div_mod::*;
use crate::conductor::{
    lemma_name_resolves, lemma_resistance_bounds,
    lemma_thicker_resists_less, normalize_size, normalized_size, resolve_size, resolved_size,
    ConductorSize, SIZE_COUNT,
};

verus! {

/// The power factor assumed where none is given, in thousandths.
pub const DEFAULT_POWER_FACTOR: i32 = 850;

/// The highest drop, in thousandths of a percent, that counts as good.
pub const GOOD_LIMIT: i128 = 3000;

/// The highest drop, in thousandths of a percent, that is still acceptable.
pub const WARNING_LIMIT: i128 = 5000;

/// How a voltage drop stands against the recommended limits.
#[derive(Debug, Clone, Copy, PartialEq, Eq, Structural)]
pub enum VoltageDropSeverity {
    /// At most 3 %.
    Good,
    /// Above 3 % and at most 5 %.
    Warning,
    /// Above 5 %.
    Error,
}

/// The inputs of a voltage-drop calculation.
#[derive(Debug, Clone)]
pub struct VoltageDropCalculation {
    /// Nominal voltage in millivolts.
    pub voltage: i32,
    /// Load current in milliamperes.
    pub current: i32,
    /// One-way length of the run in thousandths of a foot.
    pub distance: i32,
    /// Conductor size, such as `"12 AWG"`, `"250 MCM"`, `"#10"` or `"10"`.
    pub conductor_size: String,
    pub material: ConductorMaterial,
    /// Power factor in thousandths; zero or less selects the default, 850.
    pub power_factor: i32,
    /// The number of conductors of the circuit. The drop is that of a run out
    /// and back, whatever this number is.
    pub number_of_conductors: i32,
}

/// The outcome of a voltage-drop calculation.
#[derive(Debug, Clone)]
pub struct VoltageDropResult {
    /// The drop in millivolts, rounded up.
    pub voltage_drop_volts: i128,
    /// The drop in thousandths of a percent of the nominal voltage, rounded
    /// up; `None` where the nominal voltage is zero.
    pub voltage_drop_percentage: Option<i128>,
    /// The line-to-line drop in millivolts; the same as `voltage_drop_volts`.
    pub line_to_line_voltage_drop: i128,
    pub severity: VoltageDropSeverity,
    pub compliance_status: String,
}

/// The mathematical content of a `VoltageDropResult`.
pub ghost struct VoltageDropReport {
    pub voltage_drop_volts: int,
    pub voltage_drop_percentage: Option<int>,
    pub line_to_line_voltage_drop: int,
    pub severity: VoltageDropSeverity,
    pub compliance_status: Seq<char>,
}

impl View for VoltageDropResult {
    type V = VoltageDropReport;

    open spec fn view(&self) -> VoltageDropReport {
        VoltageDropReport {
            voltage_drop_volts: self.voltage_drop_volts as int,
            voltage_drop_percentage: match self.voltage_drop_percentage {
                Some(p) => Some(p as int),
                None => None,
            },
            line_to_line_voltage_drop: self.line_to_line_voltage_drop as int,
            severity: self.severity,
            compliance_status: self.compliance_status@,
        }
    }
}

/// The power factor that a calculation uses: the given one where it is
/// positive, else the default.
pub open spec fn effective_power_factor(power_factor: int) -> int {
    if power_factor > 0 {
        power_factor
    } else {
        DEFAULT_POWER_FACTOR as int
    }
}

/// The voltage drop over a run, out and back, as an exact whole number of
/// attovolts (10⁻¹⁸ V): `2 × current × distance / 1000 × resistance × power
/// factor`, with current in mA, distance in thousandths of a foot,
/// resistance in µΩ per 1000 ft and the power factor in thousandths.
pub open spec fn drop_attovolts(
    current: int,
    distance: int,
    resistance: int,
    power_factor: int,
) -> int {
    2 * current * distance * resistance * effective_power_factor(power_factor)
}

/// The quotient `n / d` rounded up to a whole number, for a positive `d`.
pub open spec fn ceil_div(n: int, d: int) -> int {
    -((-n) / d)
}

/// Attovolts in a millivolt.
pub open spec fn attovolts_per_millivolt() -> int {
    1_000_000_000_000_000
}

/// Attovolts in a thousandth of a percent of a millivolt.
pub open spec fn percent_scale() -> int {
    10_000_000_000
}

/// A drop in millivolts, rounded up.
pub open spec fn drop_millivolts(attovolts: int) -> int {
    ceil_div(attovolts, attovolts_per_millivolt())
}

/// A drop in thousandths of a percent of the nominal voltage, rounded up;
/// `None` for a nominal voltage of zero.
pub open spec fn drop_millipercent(attovolts: int, voltage: int) -> Option<int> {
    if voltage > 0 {
        Some(ceil_div(attovolts, voltage * percent_scale()))
    } else if voltage < 0 {
        Some(ceil_div(-attovolts, -voltage * percent_scale()))
    } else {
        None
    }
}

/// The severity of a drop. With a nominal voltage the percentage decides.
/// With a nominal voltage of zero the ratio has no finite value: a negative
/// drop then lies below every limit, any other drop above.
pub open spec fn severity_of(attovolts: int, voltage: int) -> VoltageDropSeverity {
    match drop_millipercent(attovolts, voltage) {
        Some(percentage) => if percentage <= GOOD_LIMIT {
            VoltageDropSeverity::Good
        } else if percentage <= WARNING_LIMIT {
            VoltageDropSeverity::Warning
        } else {
            VoltageDropSeverity::Error
        },
        None => if attovolts < 0 {
            VoltageDropSeverity::Good
        } else {
            VoltageDropSeverity::Error
        },
    }
}

/// The compliance message of a severity.
pub open spec fn compliance_text(severity: VoltageDropSeverity) -> Seq<char> {
    match severity {
        VoltageDropSeverity::Good => "Compliant with NEC recommendations (≤3%)"@,
        VoltageDropSeverity::Warning => "Acceptable but high (3-5%, consider larger conductor)"@,
        VoltageDropSeverity::Error => "Exceeds NEC recommendations (>5%, larger conductor required)"@,
    }
}

/// The report for a run over a conductor of a given resistance.
pub open spec fn voltage_drop_report(
    voltage: int,
    current: int,
    distance: int,
    resistance: int,
    power_factor: int,
) -> VoltageDropReport {
    let attovolts = drop_attovolts(current, distance, resistance, power_factor);
    let severity = severity_of(attovolts, voltage);
    VoltageDropReport {
        voltage_drop_volts: drop_millivolts(attovolts),
        voltage_drop_percentage: drop_millipercent(attovolts, voltage),
        line_to_line_voltage_drop: drop_millivolts(attovolts),
        severity,
        compliance_status: compliance_text(severity),
    }
}

/// A drop that stays within `max_percent` thousandths of a percent of the
/// nominal voltage: `drop ≤ voltage × max_percent / 100`, taken exactly.
pub open spec fn within_budget(
    voltage: int,
    current: int,
    distance: int,
    resistance: int,
    max_percent: int,
    power_factor: int,
) -> bool {
    drop_attovolts(current, distance, resistance, power_factor) <= voltage * max_percent
        * percent_scale()
}

/// A size of a material that keeps a run within its budget.
pub open spec fn is_adequate(
    size: ConductorSize,
    voltage: int,
    current: int,
    distance: int,
    material: ConductorMaterial,
    max_percent: int,
    power_factor: int,
) -> bool {
    size.is_standard_in(material) && within_budget(
        voltage,
        current,
        distance,
        size.resistance_micro_ohms(material),
        max_percent,
        power_factor,
    )
}

/// The thinnest adequate size: adequate itself, with no thinner standard size
/// of the material adequate too.
pub open spec fn is_minimum_size(
    size: ConductorSize,
    voltage: int,
    current: int,
    distance: int,
    material: ConductorMaterial,
    max_percent: int,
    power_factor: int,
) -> bool {
    &&& is_adequate(size, voltage, current, distance, material, max_percent, power_factor)
    &&& forall|thinner: ConductorSize|
        thinner.rank() < size.rank() ==> !#[trigger] is_adequate(
            thinner,
            voltage,
            current,
            distance,
            material,
            max_percent,
            power_factor,
        )
}

/// No standard size of the material keeps the run within its budget.
pub open spec fn no_size_is_adequate(
    voltage: int,
    current: int,
    distance: int,
    material: ConductorMaterial,
    max_percent: int,
    power_factor: int,
) -> bool {
    forall|size: ConductorSize|
        !#[trigger] is_adequate(
            size,
            voltage,
            current,
            distance,
            material,
            max_percent,
            power_factor,
        )
}

/// The current drawn by a load, in milliamperes and rounded up: `power /
/// (voltage × power factor)`, and for three phases `power / (voltage × 1.732
/// × power factor)`; any other number of phases counts as one. `None` where
/// the divisor is zero. Power is in milliwatts, voltage in millivolts, the
/// power factor in thousandths.
pub open spec fn current_from_power(
    power: int,
    voltage: int,
    power_factor: int,
    phases: int,
) -> Option<int> {
    let (numerator, divisor) = if phases == 3 {
        (power * 1_000_000_000, voltage * 1732 * power_factor)
    } else {
        (power * 1_000_000, voltage * power_factor)
    };
    if divisor > 0 {
        Some(ceil_div(numerator, divisor))
    } else if divisor < 0 {
        Some(ceil_div(-numerator, -divisor))
    } else {
        None
    }
}

/// The product of two bounded numbers is bounded by the product of the
/// bounds.
pub proof fn lemma_product_within(x: int, y: int, bx: int, by: int)
    requires
        -bx <= x <= bx,
        -by <= y <= by,
    ensures
        -(bx * by) <= x * y <= bx * by,
{
    assert((bx - x) * (by - y) >= 0) by (nonlinear_arith)
        requires
            bx - x >= 0,
            by - y >= 0,
    ;
    assert((bx + x) * (by + y) >= 0) by (nonlinear_arith)
        requires
            bx + x >= 0,
            by + y >= 0,
    ;
    assert((bx - x) * (by + y) >= 0) by (nonlinear_arith)
        requires
            bx - x >= 0,
            by + y >= 0,
    ;
    assert((bx + x) * (by - y) >= 0) by (nonlinear_arith)
        requires
            bx + x >= 0,
            by - y >= 0,
    ;
    assert((bx - x) * (by - y) == bx * by - bx * y - x * by + x * y) by (nonlinear_arith);
    assert((bx + x) * (by + y) == bx * by + bx * y + x * by + x * y) by (nonlinear_arith);
    assert((bx - x) * (by + y) == bx * by + bx * y - x * by - x * y) by (nonlinear_arith);
    assert((bx + x) * (by - y) == bx * by - bx * y + x * by - x * y) by (nonlinear_arith);
}

/// Rounding up keeps a quotient at or below a whole limit exactly when the
/// dividend is at or below the limit times the divisor.
pub proof fn lemma_ceil_div_at_most(n: int, d: int, limit: int)
    requires
        d > 0,
    ensures
        ceil_div(n, d) <= limit <==> n <= limit * d,
{
    let q = (-n) / d;
    let r = (-n) % d;
    lemma_fundamental_div_mod(-n, d);
    lemma_mod_bound(-n, d);
    assert(-n == d * q + r);
    if -q <= limit {
        assert((limit + q) * d >= 0) by (nonlinear_arith)
            requires
                limit + q >= 0,
                d > 0,
        ;
        assert((limit + q) * d == limit * d + d * q) by (nonlinear_arith);
    } else {
        assert((-q - limit) * d >= d) by (nonlinear_arith)
            requires
                -q - limit >= 1,
                d > 0,
        ;
        assert((-q - limit) * d == -(d * q) - limit * d) by (nonlinear_arith);
    }
}

/// Rounding up is monotone in the dividend.
pub proof fn lemma_ceil_div_is_ordered(a: int, b: int, d: int)
    requires
        a <= b,
        d > 0,
    ensures
        ceil_div(a, d) <= ceil_div(b, d),
{
    lemma_div_is_ordered(-b, -a, d);
}

/// The quotient `n / d` rounded up.
pub fn ceil_div_of(n: i128, d: i128) -> (q: i128)
    requires
        d > 0,
        n > i128::MIN,
    ensures
        q == ceil_div(n as int, d as int),
{
    if n > 0 {
        let below: i128 = (n - 1) / d;
        proof {
            let r = (n - 1) % (d as int);
            lemma_fundamental_div_mod(n - 1, d as int);
            lemma_mod_bound(n - 1, d as int);
            assert(-(n as int) == (-(below as int) - 1) * d + (d - 1 - r)) by (nonlinear_arith)
                requires
                    n - 1 == d * below + r,
            ;
            lemma_fundamental_div_mod_converse(-(n as int), d as int, -(below as int) - 1, d - 1 - r);
            assert(below >= 0) by {
                lemma_div_pos_is_pos(n - 1, d as int);
            }
            assert(below <= n - 1) by {
                lemma_div_is_ordered_by_denominator(n - 1, 1, d as int);
            }
        }
        below + 1
    } else {
        let above: i128 = (-n) / d;
        proof {
            assert(0 <= above <= -n) by {
                lemma_div_pos_is_pos(-n, d as int);
                lemma_div_is_ordered_by_denominator(-n, 1, d as int);
            }
        }
        -above
    }
}

/// The largest magnitude that `drop_attovolts` reaches on 32-bit inputs: two
/// to the power of 126.
pub open spec fn attovolt_bound() -> int {
    2int * 0x8000_0000 * 0x8000_0000 * 0x1_0000_0000 * 0x8000_0000
}

/// Computes `drop_attovolts`.
pub fn drop_attovolts_of(current: i32, distance: i32, resistance: u32, power_factor: i32) -> (n:
    i128)
    ensures
        n == drop_attovolts(
            current as int,
            distance as int,
            resistance as int,
            power_factor as int,
        ),
        -attovolt_bound() <= n <= attovolt_bound(),
{
    let factor: i128 = if power_factor > 0 {
        power_factor as i128
    } else {
        DEFAULT_POWER_FACTOR as i128
    };
    proof {
        let run: int = 2 * (current * distance);
        let ohm_run: int = run * resistance;
        lemma_product_within(current as int, distance as int, 0x8000_0000, 0x8000_0000);
        lemma_product_within(
            run,
            resistance as int,
            2int * 0x8000_0000 * 0x8000_0000,
            0x1_0000_0000,
        );
        lemma_product_within(
            ohm_run,
            factor as int,
            2int * 0x8000_0000 * 0x8000_0000 * 0x1_0000_0000,
            0x8000_0000,
        );
        assert(run == 2 * current * distance) by (nonlinear_arith)
            requires
                run == 2 * (current * distance),
        ;
    }
    let a: i128 = 2 * (current as i128 * distance as i128);
    let b: i128 = a * (resistance as i128);
    b * factor
}

/// The report for a run over a conductor of a standard size.
pub fn voltage_drop_for_size(
    voltage: i32,
    current: i32,
    distance: i32,
    size: ConductorSize,
    material: ConductorMaterial,
    power_factor: i32,
) -> (r: VoltageDropResult)
    ensures
        r@ == voltage_drop_report(
            voltage as int,
            current as int,
            distance as int,
            size.resistance_micro_ohms(material),
            power_factor as int,
        ),
{
    let attovolts = drop_attovolts_of(current, distance, size.resistance(material), power_factor);
    let millivolts = ceil_div_of(attovolts, 1_000_000_000_000_000);
    let percentage = if voltage > 0 {
        Some(ceil_div_of(attovolts, voltage as i128 * 10_000_000_000))
    } else if voltage < 0 {
        Some(ceil_div_of(-attovolts, -(voltage as i128) * 10_000_000_000))
    } else {
        None
    };
    let severity = match percentage {
        Some(p) => if p <= GOOD_LIMIT {
            VoltageDropSeverity::Good
        } else if p <= WARNING_LIMIT {
            VoltageDropSeverity::Warning
        } else {
            VoltageDropSeverity::Error
        },
        None => if attovolts < 0 {
            VoltageDropSeverity::Good
        } else {
            VoltageDropSeverity::Error
        },
    };
    let compliance_status = match severity {
        VoltageDropSeverity::Good => String::from_str("Compliant with NEC recommendations (≤3%)"),
        VoltageDropSeverity::Warning => String::from_str(
            "Acceptable but high (3-5%, consider larger conductor)",
        ),
        VoltageDropSeverity::Error => String::from_str(
            "Exceeds NEC recommendations (>5%, larger conductor required)",
        ),
    };
    VoltageDropResult {
        voltage_drop_volts: millivolts,
        voltage_drop_percentage: percentage,
        line_to_line_voltage_drop: millivolts,
        severity,
        compliance_status,
    }
}

/// The thinnest standard size of a material that keeps a run within
/// `max_percent` thousandths of a percent of drop; `None` where no standard
/// size does.
pub fn minimum_conductor_size(
    voltage: i32,
    current: i32,
    distance: i32,
    material: ConductorMaterial,
    max_percent: i32,
    power_factor: i32,
) -> (r: Option<ConductorSize>)
    ensures
        match r {
            Some(size) => is_minimum_size(
                size,
                voltage as int,
                current as int,
                distance as int,
                material,
                max_percent as int,
                power_factor as int,
            ),
            None => no_size_is_adequate(
                voltage as int,
                current as int,
                distance as int,
                material,
                max_percent as int,
                power_factor as int,
            ),
        },
{
    proof {
        lemma_product_within(voltage as int, max_percent as int, 0x8000_0000, 0x8000_0000);
    }
    let budget: i128 = voltage as i128 * max_percent as i128 * 10_000_000_000;
    let mut rank: u8 = match material {
        ConductorMaterial::Copper => 0,
        ConductorMaterial::Aluminum => 3,
    };
    while rank < SIZE_COUNT
        invariant
            ConductorSize::thinnest_rank(material) <= rank <= SIZE_COUNT,
            budget == voltage * max_percent * percent_scale(),
            forall|size: ConductorSize|
                size.rank() < rank ==> !#[trigger] is_adequate(
                    size,
                    voltage as int,
                    current as int,
                    distance as int,
                    material,
                    max_percent as int,
                    power_factor as int,
                ),
        decreases SIZE_COUNT - rank,
    {
        let size = ConductorSize::from_rank(rank).unwrap();
        let attovolts = drop_attovolts_of(
            current,
            distance,
            size.resistance(material),
            power_factor,
        );
        if attovolts <= budget {
            return Some(size);
        }
        proof {
            assert forall|other: ConductorSize| other.rank() < rank + 1 implies !#[trigger] is_adequate(
                other,
                voltage as int,
                current as int,
                distance as int,
                material,
                max_percent as int,
                power_factor as int,
            ) by {
                if other.rank() == rank {
                    assert(ConductorSize::at(other.rank() as int) == Some(other));
                }
            }
        }
        rank += 1;
    }
    None
}

/// The stateless engine for voltage drop, conductor sizing and current
/// estimation.
#[derive(Debug, Clone, Copy)]
pub struct ElectricalCalculator {}

impl ElectricalCalculator {
    pub fn new() -> (r: Self) {
        ElectricalCalculator {  }
    }

    /// Brings a conductor size as a user writes it into its listed form.
    pub fn normalize_conductor_size(&self, size: &str) -> (r: String)
        ensures
            r@ == normalized_size(size@),
    {
        normalize_size(size)
    }

    /// The resistance of a conductor in micro-ohms per 1000 feet, or the
    /// error `Unknown conductor size: ` with the size as given.
    pub fn get_conductor_resistance(&self, size: &str, material: &ConductorMaterial) -> (r: Result<
        u32,
        String,
    >)
        ensures
            match resolved_size(size@) {
                Some(listed) => r == Ok::<u32, String>(
                    listed.resistance_micro_ohms(*material) as u32,
                ),
                None => r matches Err(e) && e@ == "Unknown conductor size: "@ + size@,
            },
    {
        match resolve_size(size) {
            Some(listed) => Ok(listed.resistance(*material)),
            None => {
                let mut message = String::from_str("Unknown conductor size: ");
                message.append(size);
                Err(message)
            },
        }
    }

    /// The voltage drop over a run. Fails with `Unknown conductor size: ` and
    /// the size as given where the size stands for no standard size.
    pub fn calculate_voltage_drop(&self, calc: &VoltageDropCalculation) -> (r: Result<
        VoltageDropResult,
        String,
    >)
        ensures
            match resolved_size(calc.conductor_size@) {
                Some(size) => r matches Ok(result) && result@ == voltage_drop_report(
                    calc.voltage as int,
                    calc.current as int,
                    calc.distance as int,
                    size.resistance_micro_ohms(calc.material),
                    calc.power_factor as int,
                ),
                None => r matches Err(e) && e@ == "Unknown conductor size: "@
                    + calc.conductor_size@,
            },
    {
        match resolve_size(calc.conductor_size.as_str()) {
            Some(size) => Ok(
                voltage_drop_for_size(
                    calc.voltage,
                    calc.current,
                    calc.distance,
                    size,
                    calc.material,
                    calc.power_factor,
                ),
            ),
            None => {
                let mut message = String::from_str("Unknown conductor size: ");
                message.append(calc.conductor_size.as_str());
                Err(message)
            },
        }
    }

    /// The name of the thinnest standard size of a material that keeps a run
    /// within `max_voltage_drop_percent` thousandths of a percent of drop.
    /// Fails with `No standard conductor size meets the voltage drop
    /// requirement` where no standard size does.
    pub fn calculate_minimum_conductor_size(
        &self,
        voltage: i32,
        current: i32,
        distance: i32,
        material: &ConductorMaterial,
        max_voltage_drop_percent: i32,
        power_factor: i32,
    ) -> (r: Result<String, String>)
        ensures
            match r {
                Ok(name) => ConductorSize::named(name@) matches Some(size) && is_minimum_size(
                    size,
                    voltage as int,
                    current as int,
                    distance as int,
                    *material,
                    max_voltage_drop_percent as int,
                    power_factor as int,
                ),
                Err(e) => e@ == "No standard conductor size meets the voltage drop requirement"@
                    && no_size_is_adequate(
                    voltage as int,
                    current as int,
                    distance as int,
                    *material,
                    max_voltage_drop_percent as int,
                    power_factor as int,
                ),
            },
    {
        match minimum_conductor_size(
            voltage,
            current,
            distance,
            *material,
            max_voltage_drop_percent,
            power_factor,
        ) {
            Some(size) => {
                proof {
                    lemma_name_resolves(size);
                }
                Ok(String::from_str(size.name()))
            },
            None => Err(
                String::from_str("No standard conductor size meets the voltage drop requirement"),
            ),
        }
    }

    /// The current drawn by a load in milliamperes, rounded up; `None` where
    /// voltage times power factor is zero, so that the quotient has no finite
    /// value. Power is in milliwatts, voltage in millivolts, the power factor
    /// in thousandths.
    pub fn calculate_current_from_power(
        power_watts: i64,
        voltage: i32,
        power_factor: i32,
        phases: i32,
    ) -> (r: Option<i128>)
        ensures
            match current_from_power(
                power_watts as int,
                voltage as int,
                power_factor as int,
                phases as int,
            ) {
                Some(current) => r == Some(current as i128) && i128::MIN <= current
                    <= i128::MAX,
                None => r is None,
            },
    {
        proof {
            lemma_product_within(voltage as int, power_factor as int, 0x8000_0000, 0x8000_0000);
        }
        let volt_factor: i128 = voltage as i128 * power_factor as i128;
        proof {
            assert(voltage * 1732 * power_factor == (voltage * power_factor) * 1732)
                by (nonlinear_arith);
        }
        let numerator: i128 = if phases == 3 {
            power_watts as i128 * 1_000_000_000
        } else {
            power_watts as i128 * 1_000_000
        };
        let divisor: i128 = if phases == 3 {
            volt_factor * 1732
        } else {
            volt_factor
        };
        if divisor > 0 {
            Some(ceil_div_of(numerator, divisor))
        } else if divisor < 0 {
            Some(ceil_div_of(-numerator, -divisor))
        } else {
            None
        }
    }
}

/// With non-negative factors the exact drop grows with each of them.
proof fn lemma_drop_grows(low: int, high: int, other: int, resistance: int, power_factor: int)
    requires
        low <= high,
        other >= 0,
        resistance >= 0,
    ensures
        drop_attovolts(low, other, resistance, power_factor) <= drop_attovolts(
            high,
            other,
            resistance,
            power_factor,
        ),
        drop_attovolts(other, low, resistance, power_factor) <= drop_attovolts(
            other,
            high,
            resistance,
            power_factor,
        ),
{
    let f = effective_power_factor(power_factor);
    assert(2 * low * other * resistance * f <= 2 * high * other * resistance * f)
        by (nonlinear_arith)
        requires
            low <= high,
            other >= 0,
            resistance >= 0,
            f > 0,
    ;
    assert(2 * other * low * resistance * f <= 2 * other * high * resistance * f)
        by (nonlinear_arith)
        requires
            low <= high,
            other >= 0,
            resistance >= 0,
            f > 0,
    ;
}

/// With a positive nominal voltage and a run of non-negative length, a higher
/// current never gives a lower drop, in volts or in percent, whatever the
/// size and the material of the conductor.
pub proof fn law_drop_grows_with_current(
    voltage: int,
    lower_current: int,
    higher_current: int,
    distance: int,
    size: ConductorSize,
    material: ConductorMaterial,
    power_factor: int,
)
    requires
        voltage > 0,
        distance >= 0,
        lower_current <= higher_current,
    ensures
        ({
            let resistance = size.resistance_micro_ohms(material);
            let low = voltage_drop_report(
                voltage,
                lower_current,
                distance,
                resistance,
                power_factor,
            );
            let high = voltage_drop_report(
                voltage,
                higher_current,
                distance,
                resistance,
                power_factor,
            );
            &&& low.voltage_drop_volts <= high.voltage_drop_volts
            &&& low.voltage_drop_percentage is Some
            &&& high.voltage_drop_percentage is Some
            &&& low.voltage_drop_percentage.unwrap() <= high.voltage_drop_percentage.unwrap()
        }),
{
    let resistance = size.resistance_micro_ohms(material);
    lemma_resistance_bounds(size, material);
    lemma_drop_grows(lower_current, higher_current, distance, resistance, power_factor);
    let low = drop_attovolts(lower_current, distance, resistance, power_factor);
    let high = drop_attovolts(higher_current, distance, resistance, power_factor);
    lemma_ceil_div_is_ordered(low, high, attovolts_per_millivolt());
    lemma_ceil_div_is_ordered(low, high, voltage * percent_scale());
}

/// With a positive nominal voltage and a non-negative current, a longer run
/// never gives a lower drop, in volts or in percent, whatever the size and
/// the material of the conductor.
pub proof fn law_drop_grows_with_distance(
    voltage: int,
    current: int,
    shorter_distance: int,
    longer_distance: int,
    size: ConductorSize,
    material: ConductorMaterial,
    power_factor: int,
)
    requires
        voltage > 0,
        current >= 0,
        shorter_distance <= longer_distance,
    ensures
        ({
            let resistance = size.resistance_micro_ohms(material);
            let short = voltage_drop_report(
                voltage,
                current,
                shorter_distance,
                resistance,
                power_factor,
            );
            let long = voltage_drop_report(
                voltage,
                current,
                longer_distance,
                resistance,
                power_factor,
            );
            &&& short.voltage_drop_volts <= long.voltage_drop_volts
            &&& short.voltage_drop_percentage is Some
            &&& long.voltage_drop_percentage is Some
            &&& short.voltage_drop_percentage.unwrap() <= long.voltage_drop_percentage.unwrap()
        }),
{
    let resistance = size.resistance_micro_ohms(material);
    lemma_resistance_bounds(size, material);
    lemma_drop_grows(shorter_distance, longer_distance, current, resistance, power_factor);
    let short = drop_attovolts(current, shorter_distance, resistance, power_factor);
    let long = drop_attovolts(current, longer_distance, resistance, power_factor);
    lemma_ceil_div_is_ordered(short, long, attovolts_per_millivolt());
    lemma_ceil_div_is_ordered(short, long, voltage * percent_scale());
}

/// The exact drop grows strictly: with a run of positive length a higher
/// current gives a higher drop, and with a positive current so does a longer
/// run, whatever the size and the material of the conductor.
pub proof fn law_exact_drop_grows_strictly(
    low: int,
    high: int,
    other: int,
    size: ConductorSize,
    material: ConductorMaterial,
    power_factor: int,
)
    requires
        low < high,
        other > 0,
    ensures
        drop_attovolts(low, other, size.resistance_micro_ohms(material), power_factor)
            < drop_attovolts(high, other, size.resistance_micro_ohms(material), power_factor),
        drop_attovolts(other, low, size.resistance_micro_ohms(material), power_factor)
            < drop_attovolts(other, high, size.resistance_micro_ohms(material), power_factor),
{
    let resistance = size.resistance_micro_ohms(material);
    let f = effective_power_factor(power_factor);
    lemma_resistance_bounds(size, material);
    assert(2 * low * other * resistance * f < 2 * high * other * resistance * f)
        by (nonlinear_arith)
        requires
            low < high,
            other > 0,
            resistance > 0,
            f > 0,
    ;
    assert(2 * other * low * resistance * f < 2 * other * high * resistance * f)
        by (nonlinear_arith)
        requires
            low < high,
            other > 0,
            resistance > 0,
            f > 0,
    ;
}

/// With a positive nominal voltage, the severity tells exactly where the
/// exact drop stands against 3 % and 5 % of the nominal voltage: rounding
/// the reported percentage up moves no drop across a limit.
pub proof fn law_severity_is_exact(attovolts: int, voltage: int)
    requires
        voltage > 0,
    ensures
        severity_of(attovolts, voltage) == VoltageDropSeverity::Good <==> attovolts <= 3000
            * (voltage * percent_scale()),
        severity_of(attovolts, voltage) == VoltageDropSeverity::Error <==> attovolts > 5000
            * (voltage * percent_scale()),
{
    lemma_ceil_div_at_most(attovolts, voltage * percent_scale(), 3000);
    lemma_ceil_div_at_most(attovolts, voltage * percent_scale(), 5000);
}

/// A run has at most one minimum size.
pub proof fn law_minimum_size_is_unique(
    a: ConductorSize,
    b: ConductorSize,
    voltage: int,
    current: int,
    distance: int,
    material: ConductorMaterial,
    max_percent: int,
    power_factor: int,
)
    requires
        is_minimum_size(a, voltage, current, distance, material, max_percent, power_factor),
        is_minimum_size(b, voltage, current, distance, material, max_percent, power_factor),
    ensures
        a == b,
{
    if a.rank() < b.rank() {
        assert(!is_adequate(a, voltage, current, distance, material, max_percent, power_factor));
    } else if b.rank() < a.rank() {
        assert(!is_adequate(b, voltage, current, distance, material, max_percent, power_factor));
    }
}

/// Sizing and checking agree: with a positive nominal voltage and a budget
/// of at most 3 %, the minimum size gives a drop of severity `Good`, and its
/// name, handed to a voltage-drop calculation, stands for that very size.
pub proof fn law_minimum_size_is_good(
    size: ConductorSize,
    voltage: int,
    current: int,
    distance: int,
    material: ConductorMaterial,
    max_percent: int,
    power_factor: int,
)
    requires
        voltage > 0,
        max_percent <= 3000,
        is_minimum_size(size, voltage, current, distance, material, max_percent, power_factor),
    ensures
        resolved_size(size.name_text()) == Some(size),
        voltage_drop_report(
            voltage,
            current,
            distance,
            size.resistance_micro_ohms(material),
            power_factor,
        ).severity == VoltageDropSeverity::Good,
{
    lemma_name_resolves(size);
    let attovolts = drop_attovolts(
        current,
        distance,
        size.resistance_micro_ohms(material),
        power_factor,
    );
    law_severity_is_exact(attovolts, voltage);
    assert(voltage * max_percent * percent_scale() <= 3000 * (voltage * percent_scale()))
        by (nonlinear_arith)
        requires
            voltage > 0,
            max_percent <= 3000,
            percent_scale() > 0,
    ;
}

/// Where current times distance is not negative, a thicker conductor never
/// drops more, so that sizing fails exactly when even the thickest size,
/// 1000 MCM, is not adequate.
pub proof fn law_sizing_fails_with_the_thickest(
    voltage: int,
    current: int,
    distance: int,
    material: ConductorMaterial,
    max_percent: int,
    power_factor: int,
)
    requires
        current * distance >= 0,
    ensures
        no_size_is_adequate(voltage, current, distance, material, max_percent, power_factor)
            <==> !is_adequate(
            ConductorSize::Mcm1000,
            voltage,
            current,
            distance,
            material,
            max_percent,
            power_factor,
        ),
{
    let thickest = ConductorSize::Mcm1000;
    if !is_adequate(thickest, voltage, current, distance, material, max_percent, power_factor) {
        assert forall|size: ConductorSize|
            !#[trigger] is_adequate(
                size,
                voltage,
                current,
                distance,
                material,
                max_percent,
                power_factor,
            ) by {
            if size != thickest {
                lemma_thicker_resists_less(size, thickest, material);
                let f = effective_power_factor(power_factor);
                let thin_r = size.resistance_micro_ohms(material);
                let thick_r = thickest.resistance_micro_ohms(material);
                assert(2 * current * distance * thick_r * f <= 2 * current * distance * thin_r * f)
                    by (nonlinear_arith)
                    requires
                        current * distance >= 0,
                        thick_r <= thin_r,
                        f > 0,
                ;
            }
        }
    }
}

} // verus!
