use cableforge::cable::Cable;
use cableforge::segregation::{
    any_cable, cable_is_intrinsically_safe, function_is_power, function_is_signal,
    incompatible_pair, voltage_class, CableProperty, VoltageClass, PAIR_COUNT,
};
use cableforge::validation::{CableValidator, ValidationResult, ValidationSeverity, ValidationType};

fn cable(id: i64, tag: &str, route: &str) -> Cable {
    Cable {
        id: Some(id),
        tag: tag.to_string(),
        function: None,
        voltage: None,
        current: None,
        size: None,
        segregation_class: None,
        length: None,
        spare_percentage: None,
        route: Some(route.to_string()),
    }
}

fn with_function(mut c: Cable, function: &str) -> Cable {
    c.function = Some(function.to_string());
    c
}

fn with_voltage(mut c: Cable, volts: i32) -> Cable {
    c.voltage = Some(volts * 1000);
    c
}

fn with_class(mut c: Cable, class: &str) -> Cable {
    c.segregation_class = Some(class.to_string());
    c
}

fn ids(results: &[ValidationResult]) -> Vec<i64> {
    results.iter().map(|r| r.cable_id.unwrap()).collect()
}

fn group(cables: &[Cable]) -> Vec<&Cable> {
    cables.iter().collect()
}

#[test]
fn power_and_signal_in_one_route() {
    let validator = CableValidator::new();
    let cables = vec![
        with_function(cable(1, "C-001", "CT-01"), "Power"),
        cable(2, "C-002", "CT-01"),
        with_function(cable(3, "C-003", "CT-01"), "Signal"),
    ];
    let results = validator.check_power_signal_separation("CT-01", &group(&cables));
    assert_eq!(ids(&results), vec![1, 2, 3]);
    for result in &results {
        assert_eq!(result.severity, ValidationSeverity::Warning);
        assert_eq!(result.validation_type, ValidationType::SegregationViolation);
        assert_eq!(result.message, "Power and signal cables in same route 'CT-01' (NEC 725.136)");
        assert_eq!(result.field.as_deref(), Some("route"));
        assert_eq!(
            result.suggested_fix.as_deref(),
            Some("Separate power and signal cables into different conduits per NEC")
        );
        assert!(result.override_allowed);
    }
    assert_eq!(results[0].cable_tag, "C-001");
    assert_eq!(results[2].cable_tag, "C-003");
}

#[test]
fn power_and_signal_functions() {
    for (power, signal) in [
        ("Power", "Signal"),
        ("Lighting", "Control"),
        ("Lighting", "Communication"),
        ("Power", "Control"),
    ] {
        let validator = CableValidator::new();
        let cables = vec![
            with_function(cable(1, "A", "R"), power),
            with_function(cable(2, "B", "R"), signal),
        ];
        assert_eq!(validator.check_power_signal_separation("R", &group(&cables)).len(), 2);
    }
    for (a, b) in [
        ("Power", "Lighting"),
        ("Signal", "Control"),
        ("Power", "Other"),
        ("power", "Signal"),
        ("Power", "signal"),
        ("Power ", "Signal"),
    ] {
        let validator = CableValidator::new();
        let cables =
            vec![with_function(cable(1, "A", "R"), a), with_function(cable(2, "B", "R"), b)];
        assert!(validator.check_power_signal_separation("R", &group(&cables)).is_empty());
    }
    assert!(function_is_power(&Some("Power".to_string())));
    assert!(function_is_power(&Some("Lighting".to_string())));
    assert!(!function_is_power(&Some("Signal".to_string())));
    assert!(!function_is_power(&None));
    assert!(function_is_signal(&Some("Signal".to_string())));
    assert!(function_is_signal(&Some("Control".to_string())));
    assert!(function_is_signal(&Some("Communication".to_string())));
    assert!(!function_is_signal(&Some("Power".to_string())));
    assert!(!function_is_signal(&None));
}

#[test]
fn voltage_classes() {
    assert_eq!(voltage_class(i32::MIN), VoltageClass::Low);
    assert_eq!(voltage_class(0), VoltageClass::Low);
    assert_eq!(voltage_class(50_000), VoltageClass::Low);
    assert_eq!(voltage_class(50_001), VoltageClass::Medium);
    assert_eq!(voltage_class(600_000), VoltageClass::Medium);
    assert_eq!(voltage_class(600_001), VoltageClass::High);
    assert_eq!(voltage_class(1_000_000), VoltageClass::High);
    assert_eq!(voltage_class(1_000_001), VoltageClass::ExtraHigh);
    assert_eq!(voltage_class(i32::MAX), VoltageClass::ExtraHigh);
}

#[test]
fn low_with_high_voltage_in_one_route() {
    let validator = CableValidator::new();
    for high in [601, 1000, 1001, 13_800] {
        let cables = vec![
            with_voltage(cable(1, "A", "R"), 24),
            cable(2, "B", "R"),
            with_voltage(cable(3, "C", "R"), high),
            with_voltage(cable(4, "D", "R"), 480),
        ];
        let results = validator.check_voltage_level_separation("R", &group(&cables));
        assert_eq!(ids(&results), vec![1, 2, 3, 4]);
        for result in &results {
            assert_eq!(result.severity, ValidationSeverity::Error);
            assert_eq!(result.validation_type, ValidationType::SegregationViolation);
            assert_eq!(
                result.message,
                "Low voltage and high voltage cables in same route 'R' (NEC 300.3)"
            );
            assert_eq!(result.field.as_deref(), Some("route"));
            assert_eq!(
                result.suggested_fix.as_deref(),
                Some("Separate low voltage (<50V) from high voltage (>600V) cables")
            );
            assert!(result.override_allowed);
        }
    }
}

#[test]
fn only_low_with_high_voltage_counts() {
    let validator = CableValidator::new();
    for (a, b) in [(24, 480), (480, 4160), (480, 800), (800, 4160), (24, 48), (24, 600), (51, 601)]
    {
        let cables = vec![with_voltage(cable(1, "A", "R"), a), with_voltage(cable(2, "B", "R"), b)];
        assert!(
            validator.check_voltage_level_separation("R", &group(&cables)).is_empty(),
            "{} with {}",
            a,
            b
        );
    }
    // A cable without a voltage is in no class.
    let cables = vec![cable(1, "A", "R"), with_voltage(cable(2, "B", "R"), 4160)];
    assert!(validator.check_voltage_level_separation("R", &group(&cables)).is_empty());
}

#[test]
fn the_table_of_incompatible_classes() {
    assert_eq!(PAIR_COUNT, 7);
    let pairs: Vec<(&str, &str)> = (0..PAIR_COUNT).map(incompatible_pair).collect();
    assert_eq!(
        pairs,
        vec![
            ("IS Signal", "Non-IS Signal"),
            ("IS Signal", "Power 120VAC"),
            ("IS Signal", "Power 240VAC"),
            ("IS Signal", "Power 480VAC"),
            ("IS Signal", "Power 600VAC"),
            ("Control Power 24VDC", "Power 480VAC"),
            ("Control Power 24VDC", "Power 600VAC"),
        ]
    );
}

#[test]
fn incompatible_classes_in_one_route() {
    let validator = CableValidator::new();
    let cables = vec![
        with_class(cable(1, "A", "TRAY 7"), "Power 480VAC"),
        with_class(cable(2, "B", "TRAY 7"), "IS Signal"),
        with_class(cable(3, "C", "TRAY 7"), "Spare"),
        cable(4, "D", "TRAY 7"),
        with_class(cable(5, "E", "TRAY 7"), "IS Signal"),
    ];
    let results = validator.check_segregation_class_conflicts("TRAY 7", &group(&cables));
    assert_eq!(ids(&results), vec![2, 5, 1]);
    for result in &results {
        assert_eq!(result.severity, ValidationSeverity::Error);
        assert_eq!(result.validation_type, ValidationType::SegregationViolation);
        assert_eq!(
            result.message,
            "Incompatible segregation classes 'IS Signal' and 'Power 480VAC' in route 'TRAY 7'"
        );
        assert_eq!(result.field.as_deref(), Some("segregation_class"));
        assert_eq!(
            result.suggested_fix.as_deref(),
            Some("Separate IS Signal from Power 480VAC cables")
        );
        assert!(result.override_allowed);
    }
}

#[test]
fn every_incompatible_pair_is_reported_in_table_order() {
    let validator = CableValidator::new();
    let cables = vec![
        with_class(cable(1, "A", "R"), "Power 600VAC"),
        with_class(cable(2, "B", "R"), "Control Power 24VDC"),
        with_class(cable(3, "C", "R"), "IS Signal"),
        with_class(cable(4, "D", "R"), "Non-IS Signal"),
    ];
    let results = validator.check_segregation_class_conflicts("R", &group(&cables));
    assert_eq!(ids(&results), vec![3, 4, 3, 1, 2, 1]);
    assert_eq!(
        results[0].message,
        "Incompatible segregation classes 'IS Signal' and 'Non-IS Signal' in route 'R'"
    );
    assert_eq!(
        results[2].message,
        "Incompatible segregation classes 'IS Signal' and 'Power 600VAC' in route 'R'"
    );
    assert_eq!(
        results[4].message,
        "Incompatible segregation classes 'Control Power 24VDC' and 'Power 600VAC' in route 'R'"
    );
    assert_eq!(
        results[4].suggested_fix.as_deref(),
        Some("Separate Control Power 24VDC from Power 600VAC cables")
    );

    for index in 0..PAIR_COUNT {
        let (first, second) = incompatible_pair(index);
        let pair =
            vec![with_class(cable(1, "A", "R"), second), with_class(cable(2, "B", "R"), first)];
        let results = validator.check_class_pair("R", &group(&pair), first, second);
        assert_eq!(ids(&results), vec![2, 1]);
        let alone = vec![with_class(cable(1, "A", "R"), first), cable(2, "B", "R")];
        assert!(validator.check_class_pair("R", &group(&alone), first, second).is_empty());
    }
}

#[test]
fn class_names_are_compared_letter_for_letter() {
    let validator = CableValidator::new();
    let cables = vec![
        with_class(cable(1, "A", "R"), "is signal"),
        with_class(cable(2, "B", "R"), "Power 480VAC "),
        with_class(cable(3, "C", "R"), "Power 120 VAC"),
    ];
    assert!(validator.check_segregation_class_conflicts("R", &group(&cables)).is_empty());
}

#[test]
fn intrinsic_safety_is_never_overridable() {
    let validator = CableValidator::new();
    let classes: [Option<&str>; 7] = [
        None,
        Some("IS Signal"),
        Some("Non-IS Signal"),
        Some("Power 480VAC"),
        Some("ISOLATED"),
        Some("is"),
        Some(""),
    ];
    for a in classes {
        for b in classes {
            for c in classes {
                let mut cables = vec![cable(1, "A", "R"), cable(2, "B", "R"), cable(3, "C", "R")];
                cables[0].segregation_class = a.map(str::to_string);
                cables[1].segregation_class = b.map(str::to_string);
                cables[2].segregation_class = c.map(str::to_string);
                let results = validator.check_intrinsic_safety_separation("R", &group(&cables));
                let safe = cables.iter().filter(|c| cable_is_intrinsically_safe(c)).count();
                if safe == 0 || safe == 3 {
                    assert!(results.is_empty());
                } else {
                    assert_eq!(results.len(), 3);
                }
                for result in &results {
                    assert!(!result.override_allowed);
                    assert_eq!(result.severity, ValidationSeverity::Error);
                }
            }
        }
    }
}

#[test]
fn intrinsically_safe_cables_are_flagged_first() {
    let validator = CableValidator::new();
    let cables = vec![
        cable(1, "A", "CT-09"),
        with_class(cable(2, "B", "CT-09"), "IS Signal"),
        with_class(cable(3, "C", "CT-09"), "Power 120VAC"),
        with_class(cable(4, "D", "CT-09"), "Non-IS Signal"),
    ];
    let results = validator.check_intrinsic_safety_separation("CT-09", &group(&cables));
    assert_eq!(ids(&results), vec![2, 4, 1, 3]);
    for result in &results {
        assert_eq!(result.validation_type, ValidationType::SegregationViolation);
        assert_eq!(
            result.message,
            "Intrinsically safe and non-IS cables in same route 'CT-09' (NEC 504.30)"
        );
        assert_eq!(result.field.as_deref(), Some("segregation_class"));
        assert_eq!(
            result.suggested_fix.as_deref(),
            Some("IS cables must be separated from all non-IS circuits")
        );
    }
}

#[test]
fn what_counts_as_intrinsically_safe() {
    assert!(cable_is_intrinsically_safe(&with_class(cable(1, "A", "R"), "IS Signal")));
    assert!(cable_is_intrinsically_safe(&with_class(cable(1, "A", "R"), "Non-IS Signal")));
    assert!(cable_is_intrinsically_safe(&with_class(cable(1, "A", "R"), "ISOLATED")));
    assert!(!cable_is_intrinsically_safe(&with_class(cable(1, "A", "R"), "is signal")));
    assert!(!cable_is_intrinsically_safe(&with_class(cable(1, "A", "R"), "Power 480VAC")));
    assert!(!cable_is_intrinsically_safe(&cable(1, "A", "R")));
}

#[test]
fn the_four_rules_run_in_order() {
    let validator = CableValidator::new();
    let cables = vec![
        with_voltage(with_class(with_function(cable(1, "A", "R"), "Power"), "Power 480VAC"), 4160),
        with_voltage(with_class(with_function(cable(2, "B", "R"), "Signal"), "IS Signal"), 24),
    ];
    let results = validator.check_route_segregation("R", &group(&cables));
    let fields: Vec<(i64, &str, bool)> = results
        .iter()
        .map(|r| (r.cable_id.unwrap(), r.field.as_deref().unwrap(), r.override_allowed))
        .collect();
    assert_eq!(
        fields,
        vec![
            (1, "route", true),
            (2, "route", true),
            (1, "route", true),
            (2, "route", true),
            (2, "segregation_class", true),
            (1, "segregation_class", true),
            (2, "segregation_class", false),
            (1, "segregation_class", false),
        ]
    );
    assert_eq!(results[0].severity, ValidationSeverity::Warning);
    assert_eq!(results[2].severity, ValidationSeverity::Error);
}

#[test]
fn routes_are_checked_one_by_one() {
    let validator = CableValidator::new();
    let mut no_route = with_function(cable(9, "Z", ""), "Signal");
    no_route.route = None;
    let cables = vec![
        with_function(cable(1, "A", "CT-02"), "Power"),
        with_function(cable(2, "B", "CT-01"), "Power"),
        with_function(cable(3, "C", "CT-02"), "Signal"),
        with_function(cable(4, "D", "CT-01"), "Control"),
        with_function(cable(5, "E", "CT-03"), "Power"),
        with_function(cable(6, "F", " "), "Power"),
        with_function(cable(7, "G", " "), "Signal"),
        with_function(cable(8, "H", "ct-01"), "Signal"),
        no_route,
        with_function(cable(10, "I", "CT-02"), "Lighting"),
    ];
    let results = validator.validate_segregation_rules(&cables);
    assert_eq!(ids(&results), vec![1, 3, 10, 2, 4]);
    assert_eq!(
        results[0].message,
        "Power and signal cables in same route 'CT-02' (NEC 725.136)"
    );
    assert_eq!(
        results[3].message,
        "Power and signal cables in same route 'CT-01' (NEC 725.136)"
    );
}

#[test]
fn a_route_with_one_cable_is_not_checked() {
    let validator = CableValidator::new();
    let cables = vec![
        with_class(cable(1, "A", "CT-01"), "IS Signal"),
        cable(2, "B", "CT-02"),
        cable(3, "C", "CT-01 "),
    ];
    assert!(validator.validate_segregation_rules(&cables).is_empty());
    assert!(validator.validate_segregation_rules(&[]).is_empty());
}

#[test]
fn properties_of_cables() {
    let power = with_voltage(with_class(with_function(cable(1, "A", "R"), "Power"), "X"), 480);
    assert!(CableProperty::Any.holds_for(&power));
    assert!(CableProperty::Power.holds_for(&power));
    assert!(!CableProperty::Signal.holds_for(&power));
    assert!(CableProperty::Voltage(VoltageClass::Medium).holds_for(&power));
    assert!(!CableProperty::Voltage(VoltageClass::Low).holds_for(&power));
    assert!(CableProperty::InClass("X").holds_for(&power));
    assert!(!CableProperty::InClass("x").holds_for(&power));
    assert!(!CableProperty::IntrinsicallySafe.holds_for(&power));
    assert!(CableProperty::NotIntrinsicallySafe.holds_for(&power));

    let bare = cable(2, "B", "R");
    assert!(!CableProperty::Voltage(VoltageClass::Low).holds_for(&bare));
    assert!(!CableProperty::InClass("").holds_for(&bare));
    assert!(CableProperty::NotIntrinsicallySafe.holds_for(&bare));

    let cables = vec![power, bare];
    assert!(any_cable(&group(&cables), &CableProperty::Power));
    assert!(!any_cable(&group(&cables), &CableProperty::Signal));
    assert!(!any_cable(&[], &CableProperty::Any));
}
