use weatherman_core::persistence::AppSettings;

#[test]
fn add_location_dedups_case_insensitively() {
    let mut s = AppSettings::default();
    assert!(s.add_location("Berlin"));
    assert!(!s.add_location("berlin")); // duplicate (case-insensitive)
    assert!(!s.add_location("  BERLIN ")); // duplicate after trim
    assert!(s.add_location("Paris"));
    assert_eq!(s.locations, vec!["Berlin".to_string(), "Paris".to_string()]);
}

#[test]
fn add_location_rejects_empty() {
    let mut s = AppSettings::default();
    assert!(!s.add_location(""));
    assert!(!s.add_location("   "));
    assert!(s.locations.is_empty());
}

#[test]
fn remove_location_by_index() {
    let mut s = AppSettings::default();
    s.add_location("Berlin");
    s.add_location("Paris");
    s.add_location("Tokyo");
    s.remove_location(1); // remove Paris
    assert_eq!(s.locations, vec!["Berlin".to_string(), "Tokyo".to_string()]);
    s.remove_location(99); // out of range -> no-op
    assert_eq!(s.locations.len(), 2);
}

#[test]
fn default_units_is_metric() {
    assert_eq!(AppSettings::default().units, "metric");
}
