use oidc_gate::ttl::{expiry_for, parse_max_age};

#[test]
fn max_age_plain_directive() {
    assert_eq!(parse_max_age("max-age=3600"), Some(3600));
}

#[test]
fn max_age_after_other_directives() {
    assert_eq!(parse_max_age("public, max-age=600"), Some(600));
    assert_eq!(parse_max_age("no-transform, max-age=0, must-revalidate"), Some(0));
}

#[test]
fn max_age_absent_or_unusable() {
    assert_eq!(parse_max_age("no-store"), None);
    assert_eq!(parse_max_age(""), None);
    assert_eq!(parse_max_age("max-age="), None);
    assert_eq!(parse_max_age("max-age=x"), None);
}

#[test]
fn max_age_must_start_a_directive() {
    assert_eq!(parse_max_age("xmax-age=5"), None);
    assert_eq!(parse_max_age("private,max-age=5"), Some(5));
    assert_eq!(parse_max_age("private, max-age=5"), Some(5));
}

#[test]
fn max_age_first_occurrence_wins() {
    assert_eq!(parse_max_age("max-age=10, max-age=20"), Some(10));
}

#[test]
fn max_age_huge_value_saturates() {
    assert_eq!(parse_max_age("max-age=99999999999999999999999"), Some(u64::MAX));
}

#[test]
fn expiry_is_fetch_time_plus_max_age() {
    assert_eq!(expiry_for(1000, Some("max-age=3600")), 4600);
    assert_eq!(expiry_for(0, Some("max-age=0")), 0);
    assert_eq!(expiry_for(7, Some("max-age=5")), 12);
}

#[test]
fn expiry_defaults_to_fetch_time() {
    assert_eq!(expiry_for(1000, None), 1000);
    assert_eq!(expiry_for(1000, Some("no-store")), 1000);
    assert_eq!(expiry_for(1000, Some("max-age=oops")), 1000);
}

#[test]
fn expiry_saturates_at_top_of_clock() {
    assert_eq!(expiry_for(u64::MAX - 1, Some("max-age=3600")), u64::MAX);
}
