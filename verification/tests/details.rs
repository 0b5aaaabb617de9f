use errorsx::errorsx::details::{DetailValue, Details};
use errorsx::errorsx::location::Location;
use errorsx::errorsx::Errorsx;

#[test]
fn details_round_trip_with_the_matching_kind() {
    let mut details = Details::new();
    details.insert("retries", DetailValue::Unsigned(3));
    details.insert("offset", DetailValue::Signed(-12));
    details.insert("cached", DetailValue::Flag(true));
    details.insert("user", DetailValue::Text(String::from("ada")));
    assert_eq!(details.get_unsigned("retries"), Some(3));
    assert_eq!(details.get_signed("offset"), Some(-12));
    assert_eq!(details.get_flag("cached"), Some(true));
    assert_eq!(details.get_text("user"), Some("ada"));
}

#[test]
fn details_read_with_another_kind_is_absent() {
    let mut details = Details::new();
    details.insert("retries", DetailValue::Unsigned(3));
    assert_eq!(details.get_signed("retries"), None);
    assert_eq!(details.get_flag("retries"), None);
    assert_eq!(details.get_text("retries"), None);
    details.insert("user", DetailValue::Text(String::from("7")));
    assert_eq!(details.get_unsigned("user"), None);
    assert_eq!(details.get_signed("user"), None);
    assert_eq!(details.get_flag("user"), None);
}

#[test]
fn details_missing_key_is_absent() {
    let mut details = Details::new();
    assert!(details.get("retries").is_none());
    assert_eq!(details.get_unsigned("retries"), None);
    details.insert("retries", DetailValue::Unsigned(3));
    assert!(details.get("Retries").is_none());
    assert!(details.get("").is_none());
    assert_eq!(details.get_text("retry"), None);
}

#[test]
fn details_insert_replaces_the_value_of_a_key() {
    let mut details = Details::new();
    details.insert("k", DetailValue::Unsigned(1));
    details.insert("other", DetailValue::Flag(false));
    details.insert("k", DetailValue::Text(String::from("now a text")));
    assert_eq!(details.get_unsigned("k"), None);
    assert_eq!(details.get_text("k"), Some("now a text"));
    assert_eq!(details.get_flag("other"), Some(false));
}

#[test]
fn details_get_gives_the_tagged_value() {
    let mut details = Details::new();
    details.insert("n", DetailValue::Signed(i64::MIN));
    assert!(matches!(details.get("n"), Some(DetailValue::Signed(i64::MIN))));
    details.insert("", DetailValue::Unsigned(u64::MAX));
    assert!(matches!(details.get(""), Some(DetailValue::Unsigned(u64::MAX))));
}

#[test]
fn details_travel_with_the_error() {
    let mut details = Details::new();
    details.insert("shard", DetailValue::Unsigned(12));
    let error = Errorsx::builder("m", Location::new("a.rs", 1)).with_details(details).build();
    let held = error.details().as_ref().unwrap();
    assert_eq!(held.get_unsigned("shard"), Some(12));
    assert_eq!(held.get_text("shard"), None);
}

#[test]
fn details_set_twice_keeps_the_last_map() {
    let mut one = Details::new();
    one.insert("a", DetailValue::Flag(true));
    let mut two = Details::new();
    two.insert("b", DetailValue::Flag(false));
    let error = Errorsx::builder("m", Location::new("a.rs", 1))
        .with_details(one)
        .with_details(two)
        .build();
    let held = error.details().as_ref().unwrap();
    assert_eq!(held.get_flag("a"), None);
    assert_eq!(held.get_flag("b"), Some(false));
}
