use bato::monitor::{battery_level, find_attribute_prefix};
use bato::text::{contains, parse_i32, same_text, starts_with};
use bato::{parse_attribute, parse_status, Error};

fn chars(s: &str) -> Vec<char> {
    s.chars().collect()
}

#[test]
fn parse_attribute_reads_value() {
    assert_eq!(
        parse_attribute("POWER_SUPPLY_ENERGY_NOW=41390000", "POWER_SUPPLY_ENERGY_NOW"),
        Some(41390000)
    );
}

#[test]
fn parse_attribute_other_attribute() {
    assert_eq!(
        parse_attribute("POWER_SUPPLY_ENERGY_FULL=50000", "POWER_SUPPLY_ENERGY_NOW"),
        None
    );
}

#[test]
fn parse_attribute_prefix_match_only() {
    // The name is only tested as a prefix of the line.
    assert_eq!(
        parse_attribute("POWER_SUPPLY_ENERGY_FULL_DESIGN=7", "POWER_SUPPLY_ENERGY_FULL"),
        Some(7)
    );
}

#[test]
fn parse_attribute_without_equals() {
    assert_eq!(parse_attribute("POWER_SUPPLY_ENERGY_NOW", "POWER_SUPPLY_ENERGY_NOW"), None);
}

#[test]
fn parse_attribute_takes_second_field_only() {
    assert_eq!(parse_attribute("POWER_SUPPLY_X=12=34", "POWER_SUPPLY_X"), Some(12));
}

#[test]
fn parse_attribute_not_a_number() {
    assert_eq!(parse_attribute("POWER_SUPPLY_X=12a", "POWER_SUPPLY_X"), None);
    assert_eq!(parse_attribute("POWER_SUPPLY_X=", "POWER_SUPPLY_X"), None);
}

#[test]
fn parse_attribute_negative() {
    assert_eq!(parse_attribute("POWER_SUPPLY_CURRENT_NOW=-1500", "POWER_SUPPLY_CURRENT_NOW"), Some(-1500));
}

#[test]
fn parse_status_reads_status() {
    assert_eq!(parse_status("POWER_SUPPLY_STATUS=Discharging"), Some("Discharging".to_string()));
    assert_eq!(parse_status("POWER_SUPPLY_STATUS=Not charging"), Some("Not charging".to_string()));
}

#[test]
fn parse_status_other_line() {
    assert_eq!(parse_status("POWER_SUPPLY_NAME=BAT0"), None);
    assert_eq!(parse_status("POWER_SUPPLY_STATUS"), None);
}

#[test]
fn parse_status_empty_value() {
    assert_eq!(parse_status("POWER_SUPPLY_STATUS="), Some(String::new()));
}

#[test]
fn parse_i32_matches_std() {
    let cases = [
        "0", "7", "42", "-42", "+42", "007", "2147483647", "2147483648", "-2147483648",
        "-2147483649", "99999999999", "", "-", "+", "1 ", " 1", "1.5", "--1", "+-1", "12x",
    ];
    for s in cases {
        assert_eq!(parse_i32(&chars(s)), s.parse::<i32>().ok(), "input {:?}", s);
    }
}

#[test]
fn parse_i32_bounds() {
    assert_eq!(parse_i32(&chars("2147483647")), Some(i32::MAX));
    assert_eq!(parse_i32(&chars("-2147483648")), Some(i32::MIN));
    assert_eq!(parse_i32(&chars("2147483648")), None);
}

#[test]
fn text_helpers() {
    assert!(same_text("Full", "Full"));
    assert!(!same_text("Full", "Ful"));
    assert!(!same_text("Full", "full"));
    assert!(starts_with(&chars("POWER_SUPPLY_STATUS=Full"), &chars("POWER_SUPPLY_STATUS")));
    assert!(!starts_with(&chars("POWER"), &chars("POWER_SUPPLY")));
    assert!(contains("a\nPOWER_SUPPLY_ENERGY_NOW=5\n", "POWER_SUPPLY_ENERGY_NOW="));
    assert!(!contains("POWER_SUPPLY_ENERGY_NOW", "POWER_SUPPLY_ENERGY_NOW="));
    assert!(contains("abc", ""));
}

const ENERGY_UEVENT: &str = "POWER_SUPPLY_NAME=BAT0\nPOWER_SUPPLY_STATUS=Discharging\nPOWER_SUPPLY_ENERGY_FULL_DESIGN=57000000\nPOWER_SUPPLY_ENERGY_FULL=50000000\nPOWER_SUPPLY_ENERGY_NOW=25000000\n";
const CHARGE_UEVENT: &str = "POWER_SUPPLY_NAME=BAT1\nPOWER_SUPPLY_STATUS=Charging\nPOWER_SUPPLY_CHARGE_FULL_DESIGN=5000000\nPOWER_SUPPLY_CHARGE_FULL=4000000\nPOWER_SUPPLY_CHARGE_NOW=1000000\n";

#[test]
fn find_attribute_prefix_energy() {
    assert_eq!(find_attribute_prefix(ENERGY_UEVENT), Ok("ENERGY"));
}

#[test]
fn find_attribute_prefix_charge() {
    assert_eq!(find_attribute_prefix(CHARGE_UEVENT), Ok("CHARGE"));
}

#[test]
fn find_attribute_prefix_energy_wins() {
    let both = format!("{}{}", CHARGE_UEVENT, ENERGY_UEVENT);
    assert_eq!(find_attribute_prefix(&both), Ok("ENERGY"));
}

#[test]
fn find_attribute_prefix_incomplete() {
    let partial = "POWER_SUPPLY_ENERGY_FULL=1\nPOWER_SUPPLY_ENERGY_NOW=1\nPOWER_SUPPLY_CHARGE_NOW=1\n";
    assert_eq!(find_attribute_prefix(partial), Err(Error::NoAttributePrefix));
    assert_eq!(find_attribute_prefix(""), Err(Error::NoAttributePrefix));
}

#[test]
fn battery_level_values() {
    assert_eq!(battery_level(25000000, 50000000), Ok(50));
    assert_eq!(battery_level(1, 3), Ok(33));
    assert_eq!(battery_level(0, 3), Ok(0));
    assert_eq!(battery_level(60, 50), Ok(120));
    assert_eq!(battery_level(i32::MAX, 1), Err(Error::LevelOutOfRange));
    assert_eq!(battery_level(i32::MAX, i32::MAX), Ok(100));
}

#[test]
fn battery_level_invalid_charge() {
    assert_eq!(battery_level(5, 0), Err(Error::InvalidCharge));
    assert_eq!(battery_level(5, -1), Err(Error::InvalidCharge));
    assert_eq!(battery_level(-5, 10), Err(Error::InvalidCharge));
}
