use cableforge::cable::Cable;
use cableforge::estimate::{
    cable_voltage_drop, estimate_cable_current, estimate_current_for, power_current_for,
    signal_current_for,
};

fn function(name: &str) -> Option<String> {
    Some(name.to_string())
}

fn cable(function: &str, voltage: i32, length: i32, size: &str) -> Cable {
    Cable {
        id: Some(1),
        tag: "C-001".to_string(),
        function: Some(function.to_string()),
        voltage: Some(voltage),
        current: None,
        size: Some(size.to_string()),
        segregation_class: None,
        length: Some(length),
        spare_percentage: None,
        route: None,
    }
}

#[test]
fn power_cable_currents_by_size() {
    for (size, current) in [
        ("18 AWG", 10_000),
        ("16 AWG", 13_000),
        ("14 AWG", 15_000),
        ("12 AWG", 20_000),
        ("10 AWG", 30_000),
        ("8 AWG", 40_000),
        ("6 AWG", 55_000),
        ("4 AWG", 70_000),
        ("2 AWG", 95_000),
        ("1 AWG", 20_000),
        ("", 20_000),
        ("250 MCM", 95_000),
        ("1/0 AWG", 20_000),
        ("4/0 AWG", 70_000),
        ("3 AWG", 20_000),
        ("1000 MCM", 30_000),
        ("600 MCM", 55_000),
    ] {
        assert_eq!(power_current_for(size), current, "{}", size);
        assert_eq!(estimate_cable_current(&function("Power"), size), current);
        assert_eq!(estimate_cable_current(&function("Lighting"), size), current);
    }
}

#[test]
fn signal_cable_currents_by_size() {
    for (size, current) in [
        ("18 AWG", 100),
        ("20 AWG", 100),
        ("22 AWG", 100),
        ("16 AWG", 200),
        ("14 AWG", 500),
        ("12 AWG", 100),
        ("", 100),
    ] {
        assert_eq!(signal_current_for(size), current, "{}", size);
        for name in ["Signal", "Control", "Communication"] {
            assert_eq!(estimate_cable_current(&function(name), size), current);
        }
    }
}

#[test]
fn no_current_for_an_unknown_function() {
    assert_eq!(estimate_cable_current(&None, "12 AWG"), 0);
    assert_eq!(estimate_cable_current(&function("Spare"), "12 AWG"), 0);
    assert_eq!(estimate_cable_current(&function("power"), "12 AWG"), 0);
    assert_eq!(estimate_current_for(&function("Power"), "12 awg"), 20_000);
}

#[test]
fn voltage_drop_of_a_cable() {
    // 20 A over 500 ft of 12 AWG copper at 480 V: 32.81 V, 6.836 %
    assert_eq!(cable_voltage_drop(&cable("Power", 480_000, 500_000, "12 AWG")), Some(6836));
    assert_eq!(cable_voltage_drop(&cable("Power", 480_000, 500_000, "12 awg")), Some(6836));
    assert_eq!(cable_voltage_drop(&cable("Lighting", 480_000, 500_000, "#12")), Some(6836));
    // 0.1 A over 50 ft of 18 AWG copper at 24 V
    assert_eq!(cable_voltage_drop(&cable("Signal", 24_000, 50_000, "18 AWG")), Some(276));
}

#[test]
fn no_voltage_drop_without_enough_data() {
    let full = cable("Power", 480_000, 500_000, "12 AWG");
    let mut c = full.clone();
    c.voltage = None;
    assert_eq!(cable_voltage_drop(&c), None);
    let mut c = full.clone();
    c.length = None;
    assert_eq!(cable_voltage_drop(&c), None);
    let mut c = full.clone();
    c.size = None;
    assert_eq!(cable_voltage_drop(&c), None);
    let mut c = full.clone();
    c.function = None;
    assert_eq!(cable_voltage_drop(&c), None);
    assert_eq!(cable_voltage_drop(&cable("Spare", 480_000, 500_000, "12 AWG")), None);
    assert_eq!(cable_voltage_drop(&cable("Power", 480_000, 500_000, "12 mm2")), None);
    assert_eq!(cable_voltage_drop(&cable("Power", 0, 500_000, "12 AWG")), None);
}
