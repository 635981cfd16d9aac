use bato::{
    Bato, Config, Error, Notification, NotificationConfig, State, Urgency, UserConfig,
};

fn notification(summary: &str, urgency: Option<Urgency>) -> NotificationConfig {
    NotificationConfig {
        summary: summary.to_string(),
        body: Some(format!("{} body", summary)),
        icon: Some("battery".to_string()),
        urgency,
    }
}

fn user_config() -> UserConfig {
    UserConfig {
        tick_rate: Some(10),
        bat_name: None,
        low_level: 30,
        critical_level: 10,
        full_design: None,
        critical: Some(notification("critical", None)),
        low: Some(notification("low", None)),
        full: Some(notification("full", Some(Urgency::Low))),
        charging: Some(notification("charging", None)),
        discharging: Some(notification("discharging", None)),
    }
}

fn lines(status: &str, now: i32) -> Vec<String> {
    vec![
        "POWER_SUPPLY_NAME=BAT0".to_string(),
        format!("POWER_SUPPLY_STATUS={}", status),
        "POWER_SUPPLY_ENERGY_FULL_DESIGN=100000".to_string(),
        "POWER_SUPPLY_ENERGY_FULL=80000".to_string(),
        format!("POWER_SUPPLY_ENERGY_NOW={}", now),
    ]
}

const UEVENT: &str = "POWER_SUPPLY_ENERGY_FULL_DESIGN=100000\nPOWER_SUPPLY_ENERGY_FULL=80000\nPOWER_SUPPLY_ENERGY_NOW=50000\n";

fn summaries(sent: &[&Notification]) -> Vec<String> {
    sent.iter().map(|n| n.summary().to_string()).collect()
}

#[test]
fn config_keeps_values() {
    let c = Config::new(user_config()).unwrap();
    assert_eq!(c.tick_rate, Some(10));
    assert_eq!(c.low_level, 30);
    assert_eq!(c.critical_level, 10);
    let low = c.low.as_ref().unwrap();
    assert_eq!(low.summary(), "low");
    assert_eq!(low.body(), Some("low body"));
    assert_eq!(low.icon(), Some("battery"));
    assert_eq!(low.urgency(), None);
}

#[test]
fn config_rejects_threshold_order() {
    let mut u = user_config();
    u.critical_level = 31;
    assert!(matches!(Config::new(u), Err(Error::ThresholdOrder)));
}

#[test]
fn config_accepts_equal_thresholds() {
    let mut u = user_config();
    u.critical_level = 30;
    assert!(Config::new(u).is_ok());
}

#[test]
fn config_rejects_nul() {
    let mut u = user_config();
    u.charging = Some(NotificationConfig {
        summary: "ok".to_string(),
        body: None,
        icon: Some("bad\0icon".to_string()),
        urgency: None,
    });
    assert!(matches!(Config::new(u), Err(Error::NulByte)));
}

#[test]
fn notification_rejects_nul_anywhere() {
    let bad_summary = NotificationConfig { summary: "a\0".to_string(), body: None, icon: None, urgency: None };
    assert!(matches!(Notification::try_from(bad_summary), Err(Error::NulByte)));
    let bad_body = NotificationConfig { summary: "a".to_string(), body: Some("\0".to_string()), icon: None, urgency: None };
    assert!(matches!(Notification::try_from(bad_body), Err(Error::NulByte)));
    let good = NotificationConfig { summary: "a".to_string(), body: None, icon: None, urgency: Some(Urgency::Critical) };
    let n = Notification::try_from(good).unwrap();
    assert_eq!(n.summary(), "a");
    assert_eq!(n.body(), None);
    assert_eq!(n.urgency(), Some(Urgency::Critical));
}

#[test]
fn normalize_sets_default_urgencies() {
    let mut c = Config::new(user_config()).unwrap();
    c.normalize();
    assert_eq!(c.critical.as_ref().unwrap().urgency(), Some(Urgency::Critical));
    assert_eq!(c.low.as_ref().unwrap().urgency(), Some(Urgency::Normal));
    assert_eq!(c.full.as_ref().unwrap().urgency(), Some(Urgency::Low));
    assert_eq!(c.charging.as_ref().unwrap().urgency(), None);
    assert_eq!(c.discharging.as_ref().unwrap().urgency(), None);
}

#[test]
fn uevent_path_default_and_named() {
    let c = Config::new(user_config()).unwrap();
    assert_eq!(Bato::uevent_path(&c), "/sys/class/power_supply/BAT0/uevent");
    let mut u = user_config();
    u.bat_name = Some("BAT1".to_string());
    let c = Config::new(u).unwrap();
    assert_eq!(Bato::uevent_path(&c), "/sys/class/power_supply/BAT1/uevent");
}

#[test]
fn with_config_needs_attributes() {
    let c = Config::new(user_config()).unwrap();
    assert!(matches!(Bato::with_config(&c, "POWER_SUPPLY_NAME=BAT0\n"), Err(Error::NoAttributePrefix)));
    let b = Bato::with_config(&c, UEVENT).unwrap();
    assert_eq!(b.state(), State::Discharging);
    assert_eq!(b.uevent(), "/sys/class/power_supply/BAT0/uevent");
}

#[test]
fn update_full_design_level() {
    // Level 40000 of 100000 (full by design) is 40%: above low, no move.
    let c = Config::new(user_config()).unwrap();
    let mut b = Bato::with_config(&c, UEVENT).unwrap();
    let sent = b.update(&c, &lines("Discharging", 40000)).unwrap();
    assert!(sent.is_empty());
    assert_eq!(b.state(), State::Discharging);
    // 25%: low.
    let sent = b.update(&c, &lines("Discharging", 25000)).unwrap();
    assert_eq!(summaries(&sent), vec!["low".to_string()]);
    assert_eq!(b.state(), State::Low);
}

#[test]
fn update_full_attribute_level() {
    // With full_design off, 25000 of 80000 is 31%: above low.
    let mut u = user_config();
    u.full_design = Some(false);
    let c = Config::new(u).unwrap();
    let mut b = Bato::with_config(&c, UEVENT).unwrap();
    let full_first = |now: i32| {
        vec![
            "POWER_SUPPLY_STATUS=Discharging".to_string(),
            "POWER_SUPPLY_ENERGY_FULL=80000".to_string(),
            "POWER_SUPPLY_ENERGY_FULL_DESIGN=100000".to_string(),
            format!("POWER_SUPPLY_ENERGY_NOW={}", now),
        ]
    };
    let sent = b.update(&c, &full_first(25000)).unwrap();
    assert!(sent.is_empty());
    assert_eq!(b.state(), State::Discharging);
    // 24000 of 80000 is 30%: low.
    let sent = b.update(&c, &full_first(24000)).unwrap();
    assert_eq!(summaries(&sent), vec!["low".to_string()]);
}

#[test]
fn update_full_attribute_is_a_prefix() {
    // The full attribute's name is tested as a prefix of each line, so a
    // FULL_DESIGN line before the FULL line gives the full charge.
    let mut u = user_config();
    u.full_design = Some(false);
    let c = Config::new(u).unwrap();
    let mut b = Bato::with_config(&c, UEVENT).unwrap();
    let sent = b.update(&c, &lines("Discharging", 25000)).unwrap();
    assert_eq!(summaries(&sent), vec!["low".to_string()]);
}

#[test]
fn update_missing_attribute_changes_nothing() {
    let c = Config::new(user_config()).unwrap();
    let mut b = Bato::with_config(&c, UEVENT).unwrap();
    let mut l = lines("Charging", 5000);
    l.retain(|s| !s.starts_with("POWER_SUPPLY_STATUS"));
    assert!(matches!(b.update(&c, &l), Err(Error::MissingAttributes)));
    assert_eq!(b.state(), State::Discharging);
    assert!(matches!(b.update(&c, &Vec::new()), Err(Error::MissingAttributes)));
}

#[test]
fn update_zero_capacity_is_an_error() {
    let c = Config::new(user_config()).unwrap();
    let mut b = Bato::with_config(&c, UEVENT).unwrap();
    let l = vec![
        "POWER_SUPPLY_STATUS=Discharging".to_string(),
        "POWER_SUPPLY_ENERGY_FULL_DESIGN=0".to_string(),
        "POWER_SUPPLY_ENERGY_NOW=5".to_string(),
    ];
    assert!(matches!(b.update(&c, &l), Err(Error::InvalidCharge)));
    assert_eq!(b.state(), State::Discharging);
}

#[test]
fn update_first_line_wins() {
    let c = Config::new(user_config()).unwrap();
    let mut b = Bato::with_config(&c, UEVENT).unwrap();
    let mut l = lines("Charging", 50000);
    l.push("POWER_SUPPLY_STATUS=Discharging".to_string());
    l.push("POWER_SUPPLY_ENERGY_NOW=1".to_string());
    let sent = b.update(&c, &l).unwrap();
    assert_eq!(summaries(&sent), vec!["charging".to_string()]);
    assert_eq!(b.state(), State::Charging);
}

#[test]
fn update_session() {
    let c = Config::new(user_config()).unwrap();
    let mut b = Bato::with_config(&c, UEVENT).unwrap();
    let ticks = [
        ("Discharging", 50000, vec![], State::Discharging),
        ("Discharging", 5000, vec!["critical"], State::Critical),
        ("Discharging", 5000, vec![], State::Critical),
        ("Full", 100000, vec![], State::Critical),
        ("Charging", 6000, vec!["charging"], State::Charging),
        ("Full", 100000, vec!["full"], State::Full),
        ("Full", 100000, vec![], State::Full),
        ("Discharging", 99000, vec!["discharging"], State::Discharging),
    ];
    for (status, now, expected, state) in ticks {
        let sent = b.update(&c, &lines(status, now)).unwrap();
        let expected: Vec<String> = expected.iter().map(|s| s.to_string()).collect();
        assert_eq!(summaries(&sent), expected, "tick {} {}", status, now);
        assert_eq!(b.state(), state);
    }
}
