use alfred_caniuse_rs::{
    self_need_update_check, self_update_check, self_update_check_inner, update_needed,
    NeedsCheck, RecordRead, Timestamp, UpdateCheck,
};

const HOUR: i64 = 3600;

fn record(update_needed: bool, checked_with: &str, last_check: i64) -> UpdateCheck {
    UpdateCheck {
        update_needed,
        checked_with: checked_with.to_owned(),
        last_check: Timestamp::from_secs(last_check),
    }
}

#[test]
fn recent_check_by_same_version_needs_no_check() {
    let now = 1_700_000_000;
    let r = record(false, "0.3.1", now - 23 * HOUR);
    assert_eq!(r.remote_check_needed("0.3.1", &Timestamp::from_secs(now)), NeedsCheck::No);
}

#[test]
fn day_old_check_needs_check() {
    let now = 1_700_000_000;
    let r = record(false, "0.3.1", now - 25 * HOUR);
    assert_eq!(r.remote_check_needed("0.3.1", &Timestamp::from_secs(now)), NeedsCheck::Yes);
}

#[test]
fn exactly_one_day_is_still_recent() {
    let now = 1_700_000_000;
    let r = record(false, "0.3.1", now - 24 * HOUR);
    assert_eq!(r.remote_check_needed("0.3.1", &Timestamp::from_secs(now)), NeedsCheck::No);
    let just_after = Timestamp::new(now, 1);
    assert_eq!(r.remote_check_needed("0.3.1", &just_after), NeedsCheck::Yes);
}

#[test]
fn known_update_is_reported_regardless_of_age() {
    let now = 1_700_000_000;
    for age in [0, 23 * HOUR, 25 * HOUR, 400 * HOUR] {
        let r = record(true, "0.3.1", now - age);
        assert_eq!(
            r.remote_check_needed("0.3.1", &Timestamp::from_secs(now)),
            NeedsCheck::KnownOutdated
        );
    }
}

#[test]
fn record_from_other_version_needs_check() {
    let now = 1_700_000_000;
    for (needed, age) in [(false, 0), (true, 0), (false, 23 * HOUR), (true, 25 * HOUR)] {
        let r = record(needed, "0.3.0", now - age);
        assert_eq!(r.remote_check_needed("0.3.1", &Timestamp::from_secs(now)), NeedsCheck::Yes);
    }
}

#[test]
fn missing_record_needs_check() {
    let (d, purge) = self_need_update_check(&RecordRead::Missing, "0.3.1", &Timestamp::from_secs(0));
    assert_eq!(d, NeedsCheck::Yes);
    assert!(!purge);
}

#[test]
fn corrupt_record_is_purged_and_checked() {
    let (d, purge) = self_need_update_check(&RecordRead::Corrupt, "0.3.1", &Timestamp::from_secs(0));
    assert_eq!(d, NeedsCheck::Yes);
    assert!(purge);
}

#[test]
fn found_record_is_decided() {
    let now = Timestamp::from_secs(100 * HOUR);
    let read = RecordRead::Found(record(true, "0.3.1", 99 * HOUR));
    assert_eq!(self_need_update_check(&read, "0.3.1", &now), (NeedsCheck::KnownOutdated, false));
    let read = RecordRead::Found(record(false, "0.3.1", 99 * HOUR));
    assert_eq!(self_need_update_check(&read, "0.3.1", &now), (NeedsCheck::No, false));
}

#[test]
fn location_containing_version_is_up_to_date() {
    let loc = "https://github.com/robjtede/alfred-caniuse-rs/releases/download/v0.3.1/package.zip";
    assert!(!update_needed(loc, "0.3.1"));
}

#[test]
fn location_without_version_needs_update() {
    let loc = "https://github.com/robjtede/alfred-caniuse-rs/releases/download/v0.4.0/package.zip";
    assert!(update_needed(loc, "0.3.1"));
    assert!(update_needed("", "0.3.1"));
}

#[test]
fn substring_match_is_loose() {
    assert!(!update_needed("https://example.com/v10.3.12/x", "0.3.1"));
    assert!(!update_needed("anything", ""));
}

#[test]
fn probe_writes_record() {
    let now = Timestamp::new(5, 6);
    let r = self_update_check_inner(Some("releases/v0.4.0/package.zip"), "0.3.1", &now).unwrap();
    assert!(r.update_needed);
    assert_eq!(r.checked_with, "0.3.1");
    assert_eq!(r.last_check, now);
    let r = self_update_check_inner(Some("releases/v0.3.1/package.zip"), "0.3.1", &now).unwrap();
    assert!(!r.update_needed);
}

#[test]
fn failed_probe_writes_nothing() {
    assert!(self_update_check_inner(None, "0.3.1", &Timestamp::from_secs(0)).is_none());
}

#[test]
fn notification_follows_decision() {
    let yes = Some(record(true, "0.3.1", 0));
    let no = Some(record(false, "0.3.1", 0));
    assert!(self_update_check(NeedsCheck::KnownOutdated, &None));
    assert!(!self_update_check(NeedsCheck::No, &yes));
    assert!(self_update_check(NeedsCheck::Yes, &yes));
    assert!(!self_update_check(NeedsCheck::Yes, &no));
    assert!(!self_update_check(NeedsCheck::Yes, &None));
}
