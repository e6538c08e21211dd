use ecosim::datetime::DateTime;
use std::cmp::Ordering;

#[test]
fn now_is_long_enough_for_both_views() {
    let d = DateTime::new();
    assert!(d.0.chars().count() >= 19, "clock string was {:?}", d.0);
    assert_eq!(d.get_date().chars().count(), 10);
    assert_eq!(d.get_time().chars().count(), 16);
}

#[test]
fn time_view_extends_date_view() {
    let d = DateTime::new();
    let date = d.get_date();
    let time = d.get_time();
    assert!(time.starts_with(&date));
    assert_eq!(time.chars().nth(10), Some(' '));
}

#[test]
fn views_of_a_fixed_timestamp() {
    let d = DateTime(String::from("2024-03-05 12:34:56.789012 +00:00"));
    assert_eq!(d.get_date(), "2024-03-05");
    assert_eq!(d.get_time(), "2024-03-05 12:34");
}

#[test]
fn equal_strings_compare_equal() {
    let a = DateTime(String::from("2024-03-05 12:34:56"));
    let b = DateTime(String::from("2024-03-05 12:34:56"));
    assert_eq!(a.compare(&b), Ordering::Equal);
}

#[test]
fn any_exceeding_character_means_greater() {
    let a = DateTime(String::from("2024-03-05 12:34:57"));
    let b = DateTime(String::from("2024-03-05 12:34:56"));
    assert_eq!(a.compare(&b), Ordering::Greater);

    // The exceeding character decides wherever it stands, so the
    // other direction is Greater too: '9' in the day beats '0'.
    let c = DateTime(String::from("2019"));
    let d = DateTime(String::from("2020"));
    assert_eq!(c.compare(&d), Ordering::Greater);
}

#[test]
fn without_an_exceeding_character_the_longer_wins() {
    let short = DateTime(String::from("2024-03-05 12:34"));
    let long = DateTime(String::from("2024-03-05 12:34:56"));
    assert_eq!(long.compare(&short), Ordering::Greater);
    assert_eq!(short.compare(&long), Ordering::Less);
}

#[test]
fn equal_lengths_with_only_smaller_characters_compare_equal() {
    // No character of the first exceeds the aligned one of the second,
    // and the lengths match, so the scan finds nothing and answers
    // Equal even though the strings differ.
    let a = DateTime(String::from("1111"));
    let b = DateTime(String::from("2222"));
    assert_eq!(a.compare(&b), Ordering::Equal);
}

#[test]
fn empty_strings_compare_equal() {
    let a = DateTime(String::new());
    let b = DateTime(String::new());
    assert_eq!(a.compare(&b), Ordering::Equal);
    let c = DateTime(String::from("2"));
    assert_eq!(c.compare(&a), Ordering::Greater);
    assert_eq!(a.compare(&c), Ordering::Less);
}
