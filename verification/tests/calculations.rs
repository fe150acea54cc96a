use cableforge::calculations::{
    ceil_div_of, drop_attovolts_of, minimum_conductor_size, voltage_drop_for_size,
    ConductorMaterial, ElectricalCalculator, VoltageDropCalculation, VoltageDropSeverity,
    DEFAULT_POWER_FACTOR,
};
use cableforge::conductor::ConductorSize;

fn calculation(
    voltage: i32,
    current: i32,
    distance: i32,
    size: &str,
    material: ConductorMaterial,
    power_factor: i32,
) -> VoltageDropCalculation {
    VoltageDropCalculation {
        voltage,
        current,
        distance,
        conductor_size: size.to_string(),
        material,
        power_factor,
        number_of_conductors: 2,
    }
}

#[test]
fn test_voltage_drop_calculation() {
    let calculator = ElectricalCalculator::new();

    let calc = VoltageDropCalculation {
        voltage: 120 * 1000,
        current: 20 * 1000,
        distance: 100 * 1000,
        conductor_size: "12 AWG".to_string(),
        material: ConductorMaterial::Copper,
        power_factor: 850,
        number_of_conductors: 2,
    };

    let result = calculator.calculate_voltage_drop(&calc).unwrap();

    assert!(result.voltage_drop_volts > 6 * 1000 && result.voltage_drop_volts < 7 * 1000);
    assert!(result.voltage_drop_percentage.unwrap() > 5 * 1000);
    assert!(matches!(result.severity, VoltageDropSeverity::Error));
}

#[test]
fn test_conductor_size_recommendation() {
    let calculator = ElectricalCalculator::new();

    let min_size = calculator
        .calculate_minimum_conductor_size(
            120 * 1000,
            20 * 1000,
            100 * 1000,
            &ConductorMaterial::Copper,
            3 * 1000,
            850,
        )
        .unwrap();

    assert_ne!(min_size, "12 AWG");
    assert!(min_size.contains("AWG") || min_size.contains("MCM"));
}

#[test]
fn voltage_drop_reports_exact_values() {
    let calculator = ElectricalCalculator::new();
    let result = calculator
        .calculate_voltage_drop(&calculation(
            120_000,
            20_000,
            100_000,
            "12 AWG",
            ConductorMaterial::Copper,
            850,
        ))
        .unwrap();
    assert_eq!(result.voltage_drop_volts, 6562);
    assert_eq!(result.line_to_line_voltage_drop, 6562);
    assert_eq!(result.voltage_drop_percentage, Some(5469));
    assert_eq!(result.severity, VoltageDropSeverity::Error);
    assert_eq!(
        result.compliance_status,
        "Exceeds NEC recommendations (>5%, larger conductor required)"
    );
}

#[test]
fn voltage_drop_rounds_up() {
    let result = voltage_drop_for_size(
        24_000,
        100,
        50_000,
        ConductorSize::Awg18,
        ConductorMaterial::Copper,
        850,
    );
    // 66.045 mV and 0.27519 %
    assert_eq!(result.voltage_drop_volts, 67);
    assert_eq!(result.voltage_drop_percentage, Some(276));
    assert_eq!(result.severity, VoltageDropSeverity::Good);
    assert_eq!(result.compliance_status, "Compliant with NEC recommendations (≤3%)");
}

#[test]
fn severity_changes_just_above_each_limit() {
    let at = |current: i32| {
        voltage_drop_for_size(
            100_000,
            current,
            100_000,
            ConductorSize::Awg10,
            ConductorMaterial::Aluminum,
            1000,
        )
    };
    let exactly_three = at(7_500);
    assert_eq!(exactly_three.voltage_drop_percentage, Some(3000));
    assert_eq!(exactly_three.severity, VoltageDropSeverity::Good);

    let above_three = at(7_501);
    assert_eq!(above_three.voltage_drop_percentage, Some(3001));
    assert_eq!(above_three.severity, VoltageDropSeverity::Warning);
    assert_eq!(
        above_three.compliance_status,
        "Acceptable but high (3-5%, consider larger conductor)"
    );

    let exactly_five = at(12_500);
    assert_eq!(exactly_five.voltage_drop_percentage, Some(5000));
    assert_eq!(exactly_five.severity, VoltageDropSeverity::Warning);

    let above_five = at(12_501);
    assert_eq!(above_five.voltage_drop_percentage, Some(5001));
    assert_eq!(above_five.severity, VoltageDropSeverity::Error);
}

#[test]
fn power_factor_of_zero_or_less_means_the_default() {
    assert_eq!(DEFAULT_POWER_FACTOR, 850);
    let with = |power_factor: i32| {
        voltage_drop_for_size(
            120_000,
            20_000,
            100_000,
            ConductorSize::Awg12,
            ConductorMaterial::Copper,
            power_factor,
        )
    };
    let default = with(850);
    for power_factor in [0, -1, -850, i32::MIN] {
        let result = with(power_factor);
        assert_eq!(result.voltage_drop_volts, default.voltage_drop_volts);
        assert_eq!(result.voltage_drop_percentage, default.voltage_drop_percentage);
    }
    // No upper bound: a power factor above one is taken as given.
    assert_eq!(with(2000).voltage_drop_volts, 15440);
}

#[test]
fn unknown_conductor_size_is_an_error() {
    let calculator = ElectricalCalculator::new();
    let result = calculator.calculate_voltage_drop(&calculation(
        120_000,
        20_000,
        100_000,
        "13 awg",
        ConductorMaterial::Copper,
        850,
    ));
    assert_eq!(result.unwrap_err(), "Unknown conductor size: 13 awg");

    let resistance = calculator.get_conductor_resistance("", &ConductorMaterial::Copper);
    assert_eq!(resistance.unwrap_err(), "Unknown conductor size: ");
}

#[test]
fn conductor_resistance_by_size_and_material() {
    let calculator = ElectricalCalculator::new();
    let copper = ConductorMaterial::Copper;
    let aluminum = ConductorMaterial::Aluminum;
    assert_eq!(calculator.get_conductor_resistance("12 AWG", &copper), Ok(1_930_000));
    assert_eq!(calculator.get_conductor_resistance("12 AWG", &aluminum), Ok(3_180_000));
    assert_eq!(calculator.get_conductor_resistance("18 awg", &copper), Ok(7_770_000));
    assert_eq!(calculator.get_conductor_resistance("#10", &copper), Ok(1_210_000));
    assert_eq!(calculator.get_conductor_resistance("10", &aluminum), Ok(2_000_000));
    assert_eq!(calculator.get_conductor_resistance(" 2/0 awg ", &copper), Ok(96_700));
    assert_eq!(calculator.get_conductor_resistance("1000 mcm", &copper), Ok(12_900));
    assert_eq!(calculator.get_conductor_resistance("1000 MCM", &aluminum), Ok(21_200));
    assert!(calculator.get_conductor_resistance("250", &copper).is_err());
}

#[test]
fn calculator_normalizes_sizes() {
    let calculator = ElectricalCalculator::new();
    assert_eq!(calculator.normalize_conductor_size("#10"), "10 AWG");
    assert_eq!(calculator.normalize_conductor_size("10"), "10 AWG");
    assert_eq!(calculator.normalize_conductor_size("  12 awg "), "12 AWG");
    assert_eq!(calculator.normalize_conductor_size("250 mcm"), "250 MCM");
    assert_eq!(calculator.normalize_conductor_size("copper"), "COPPER");
}

#[test]
fn minimum_size_is_the_thinnest_adequate_one() {
    let calculator = ElectricalCalculator::new();
    let copper = ConductorMaterial::Copper;
    let name = calculator
        .calculate_minimum_conductor_size(120_000, 20_000, 100_000, &copper, 3000, 850)
        .unwrap();
    assert_eq!(name, "8 AWG");

    // The size found keeps the drop within 3 %.
    let check = calculator
        .calculate_voltage_drop(&calculation(120_000, 20_000, 100_000, &name, copper, 850))
        .unwrap();
    assert_eq!(check.voltage_drop_percentage, Some(2165));
    assert_eq!(check.severity, VoltageDropSeverity::Good);

    // The next thinner size does not.
    let thinner = calculator
        .calculate_voltage_drop(&calculation(120_000, 20_000, 100_000, "10 AWG", copper, 850))
        .unwrap();
    assert_eq!(thinner.voltage_drop_percentage, Some(3429));
    assert_eq!(thinner.severity, VoltageDropSeverity::Warning);
}

#[test]
fn minimum_size_never_exceeds_the_budget_and_is_never_too_thick() {
    let materials = [ConductorMaterial::Copper, ConductorMaterial::Aluminum];
    let currents = [0, 100, 5_000, 20_000, 150_000, 400_000];
    let distances = [0, 10_000, 100_000, 750_000, 3_000_000];
    let budgets = [500, 3000, 5000];
    for material in materials {
        let thinnest: u8 = match material {
            ConductorMaterial::Copper => 0,
            ConductorMaterial::Aluminum => 3,
        };
        for current in currents {
            for distance in distances {
                for budget in budgets {
                    let limit = 480_000i128 * budget as i128 * 10_000_000_000;
                    let drop = |size: ConductorSize| {
                        drop_attovolts_of(current, distance, size.resistance(material), 850)
                    };
                    match minimum_conductor_size(480_000, current, distance, material, budget, 850)
                    {
                        Some(size) => {
                            assert!(size.rank_number() >= thinnest);
                            assert!(drop(size) <= limit);
                            for rank in thinnest..size.rank_number() {
                                let thinner = ConductorSize::from_rank(rank).unwrap();
                                assert!(drop(thinner) > limit);
                            }
                        }
                        None => {
                            for rank in thinnest..23 {
                                let size = ConductorSize::from_rank(rank).unwrap();
                                assert!(drop(size) > limit);
                            }
                        }
                    }
                }
            }
        }
    }
}

#[test]
fn aluminum_is_not_sized_below_12_awg() {
    let calculator = ElectricalCalculator::new();
    let copper = calculator.calculate_minimum_conductor_size(
        120_000,
        100,
        1_000,
        &ConductorMaterial::Copper,
        3000,
        850,
    );
    let aluminum = calculator.calculate_minimum_conductor_size(
        120_000,
        100,
        1_000,
        &ConductorMaterial::Aluminum,
        3000,
        850,
    );
    assert_eq!(copper.unwrap(), "18 AWG");
    assert_eq!(aluminum.unwrap(), "12 AWG");
}

#[test]
fn sizing_fails_when_no_standard_size_is_adequate() {
    let calculator = ElectricalCalculator::new();
    let result = calculator.calculate_minimum_conductor_size(
        120_000,
        2_000_000,
        1_000_000,
        &ConductorMaterial::Copper,
        3000,
        850,
    );
    assert_eq!(
        result.unwrap_err(),
        "No standard conductor size meets the voltage drop requirement"
    );
    assert_eq!(
        minimum_conductor_size(
            120_000,
            2_000_000,
            1_000_000,
            ConductorMaterial::Copper,
            3000,
            850
        ),
        None
    );
}

#[test]
fn minimum_size_checks_as_good_for_budgets_up_to_three_percent() {
    let calculator = ElectricalCalculator::new();
    for material in [ConductorMaterial::Copper, ConductorMaterial::Aluminum] {
        for budget in [1, 250, 1000, 2999, 3000] {
            for current in [1_000, 20_000, 90_000] {
                for distance in [5_000, 100_000, 400_000] {
                    let sized = calculator.calculate_minimum_conductor_size(
                        240_000, current, distance, &material, budget, 900,
                    );
                    if let Ok(name) = sized {
                        let result = calculator
                            .calculate_voltage_drop(&calculation(
                                240_000, current, distance, &name, material, 900,
                            ))
                            .unwrap();
                        assert_eq!(result.severity, VoltageDropSeverity::Good);
                        assert!(result.voltage_drop_percentage.unwrap() <= budget as i128);
                    }
                }
            }
        }
    }
}

#[test]
fn drop_grows_with_current_and_with_distance() {
    for rank in 0..23u8 {
        let size = ConductorSize::from_rank(rank).unwrap();
        let mut last_by_current = i128::MIN;
        let mut last_by_distance = i128::MIN;
        for step in [0, 1, 2, 500, 20_000, 20_001, 1_000_000, i32::MAX] {
            let by_current = voltage_drop_for_size(
                120_000,
                step,
                100_000,
                size,
                ConductorMaterial::Copper,
                850,
            )
            .voltage_drop_percentage
            .unwrap();
            assert!(by_current >= last_by_current);
            last_by_current = by_current;

            let by_distance = voltage_drop_for_size(
                120_000,
                20_000,
                step,
                size,
                ConductorMaterial::Copper,
                850,
            )
            .voltage_drop_percentage
            .unwrap();
            assert!(by_distance >= last_by_distance);
            last_by_distance = by_distance;
        }
    }
}

#[test]
fn zero_voltage_has_no_percentage() {
    let result = voltage_drop_for_size(
        0,
        20_000,
        100_000,
        ConductorSize::Awg12,
        ConductorMaterial::Copper,
        850,
    );
    assert_eq!(result.voltage_drop_volts, 6562);
    assert_eq!(result.voltage_drop_percentage, None);
    assert_eq!(result.severity, VoltageDropSeverity::Error);

    let nothing = voltage_drop_for_size(
        0,
        0,
        100_000,
        ConductorSize::Awg12,
        ConductorMaterial::Copper,
        850,
    );
    assert_eq!(nothing.voltage_drop_volts, 0);
    assert_eq!(nothing.severity, VoltageDropSeverity::Error);

    let negative = voltage_drop_for_size(
        0,
        -20_000,
        100_000,
        ConductorSize::Awg12,
        ConductorMaterial::Copper,
        850,
    );
    assert_eq!(negative.voltage_drop_volts, -6562);
    assert_eq!(negative.severity, VoltageDropSeverity::Good);
}

#[test]
fn negative_quantities_keep_their_sign() {
    let result = voltage_drop_for_size(
        -120_000,
        -20_000,
        100_000,
        ConductorSize::Awg18,
        ConductorMaterial::Copper,
        850,
    );
    assert_eq!(result.voltage_drop_volts, -26418);
    assert_eq!(result.voltage_drop_percentage, Some(22015));
    assert_eq!(result.severity, VoltageDropSeverity::Error);

    // With a negative voltage a sized conductor need not check as good.
    let sized = minimum_conductor_size(
        -120_000,
        -20_000,
        100_000,
        ConductorMaterial::Copper,
        3000,
        850,
    );
    assert_eq!(sized, Some(ConductorSize::Awg18));
}

#[test]
fn extreme_inputs_do_not_overflow() {
    let result = voltage_drop_for_size(
        1,
        i32::MIN,
        i32::MIN,
        ConductorSize::Awg18,
        ConductorMaterial::Aluminum,
        i32::MAX,
    );
    let attovolts: i128 = 2 * (1i128 << 62) * 12_800_000 * (i32::MAX as i128);
    assert_eq!(
        drop_attovolts_of(i32::MIN, i32::MIN, 12_800_000, i32::MAX),
        attovolts
    );
    // Any resistance is taken, not only those of the table.
    assert_eq!(
        drop_attovolts_of(i32::MIN, i32::MIN, u32::MAX, i32::MAX),
        2 * (1i128 << 62) * (u32::MAX as i128) * (i32::MAX as i128)
    );
    assert_eq!(drop_attovolts_of(20_000, 100_000, 0, 850), 0);
    assert_eq!(result.voltage_drop_volts, (attovolts + 999_999_999_999_999) / 1_000_000_000_000_000);
    assert_eq!(
        result.voltage_drop_percentage,
        Some((attovolts + 9_999_999_999) / 10_000_000_000)
    );
    assert_eq!(result.severity, VoltageDropSeverity::Error);
}

#[test]
fn ceil_div_rounds_toward_positive_infinity() {
    assert_eq!(ceil_div_of(7, 2), 4);
    assert_eq!(ceil_div_of(8, 2), 4);
    assert_eq!(ceil_div_of(1, 1000), 1);
    assert_eq!(ceil_div_of(0, 5), 0);
    assert_eq!(ceil_div_of(-1, 1000), 0);
    assert_eq!(ceil_div_of(-7, 2), -3);
    assert_eq!(ceil_div_of(-8, 2), -4);
    assert_eq!(ceil_div_of(i128::MAX, 1), i128::MAX);
    assert_eq!(ceil_div_of(i128::MIN + 1, 1), i128::MIN + 1);
}

#[test]
fn current_from_power_single_phase() {
    assert_eq!(
        ElectricalCalculator::calculate_current_from_power(1_200_000, 120_000, 1000, 1),
        Some(10_000)
    );
    // 1000 W / (480 V x 0.85) = 2.45098 A
    assert_eq!(
        ElectricalCalculator::calculate_current_from_power(1_000_000, 480_000, 850, 1),
        Some(2451)
    );
}

#[test]
fn current_from_power_three_phase() {
    // 1000 W / (480 V x 1.732 x 0.85) = 1.41512 A
    let current =
        ElectricalCalculator::calculate_current_from_power(1_000_000, 480_000, 850, 3).unwrap();
    assert_eq!(current, 1416);
    assert!((current as f64 / 1000.0 - 1.415).abs() < 0.002);
}

#[test]
fn current_from_power_of_a_large_load() {
    // 5 MW at 4160 V and a power factor of 0.9
    assert_eq!(
        ElectricalCalculator::calculate_current_from_power(5_000_000_000, 4_160_000, 900, 3),
        Some(771_057)
    );
    assert_eq!(
        ElectricalCalculator::calculate_current_from_power(5_000_000_000, 4_160_000, 900, 1),
        Some(1_335_471)
    );
    assert_eq!(
        ElectricalCalculator::calculate_current_from_power(i64::MAX, 1, 1, 3),
        Some((i64::MAX as i128 * 1_000_000_000 + 1731) / 1732)
    );
}

#[test]
fn other_phase_counts_are_taken_as_single_phase() {
    let single = ElectricalCalculator::calculate_current_from_power(1_000_000, 480_000, 850, 1);
    for phases in [0, 2, 4, -3, i32::MAX, i32::MIN] {
        assert_eq!(
            ElectricalCalculator::calculate_current_from_power(1_000_000, 480_000, 850, phases),
            single
        );
    }
}

#[test]
fn current_from_power_without_a_finite_value() {
    assert_eq!(ElectricalCalculator::calculate_current_from_power(1_000_000, 0, 850, 1), None);
    assert_eq!(ElectricalCalculator::calculate_current_from_power(1_000_000, 480_000, 0, 3), None);
    assert_eq!(ElectricalCalculator::calculate_current_from_power(0, 0, 0, 1), None);
}

#[test]
fn current_from_power_with_negative_inputs() {
    assert_eq!(
        ElectricalCalculator::calculate_current_from_power(-1_000_000, 480_000, 850, 1),
        Some(-2450)
    );
    assert_eq!(
        ElectricalCalculator::calculate_current_from_power(1_000_000, -480_000, 850, 1),
        Some(-2450)
    );
    assert_eq!(
        ElectricalCalculator::calculate_current_from_power(i64::MIN, 1, 1, 3),
        Some(i64::MIN as i128 * 1_000_000_000 / 1732)
    );
    assert_eq!(
        ElectricalCalculator::calculate_current_from_power(i64::MIN, -1, 1, 1),
        Some(-(i64::MIN as i128) * 1_000_000)
    );
}

#[test]
fn results_agree_with_the_formula_in_floating_point() {
    let volts = [12.0, 24.0, 120.0, 277.0, 480.0, 4160.0];
    let amps = [0.1, 1.5, 20.0, 95.0, 400.0];
    let feet = [1.0, 50.0, 100.0, 1250.5, 9999.0];
    let factors = [0.5, 0.85, 1.0];
    for rank in 0..23u8 {
        let size = ConductorSize::from_rank(rank).unwrap();
        for material in [ConductorMaterial::Copper, ConductorMaterial::Aluminum] {
            let ohms = size.resistance(material) as f64 / 1e6;
            for v in volts {
                for i in amps {
                    for d in feet {
                        for pf in factors {
                            let result = voltage_drop_for_size(
                                (v * 1000.0) as i32,
                                (i * 1000.0) as i32,
                                (d * 1000.0) as i32,
                                size,
                                material,
                                (pf * 1000.0) as i32,
                            );
                            let drop = 2.0 * i * (d / 1000.0) * ohms * pf;
                            let percent = drop / v * 100.0;
                            let got_drop = result.voltage_drop_volts as f64 / 1000.0;
                            let got_percent =
                                result.voltage_drop_percentage.unwrap() as f64 / 1000.0;
                            assert!((got_drop - drop).abs() < 0.0011, "{} {}", got_drop, drop);
                            assert!(
                                (got_percent - percent).abs() < 0.0011,
                                "{} {}",
                                got_percent,
                                percent
                            );
                            assert!(got_drop >= drop - 1e-9);
                        }
                    }
                }
            }
        }
    }
}
