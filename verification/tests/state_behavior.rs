use dns_checker::state::{read_state, render_state, AlertState};
use dns_checker::timefmt::{current_timestamp, MAX_TIMESTAMP};

#[test]
fn record_round_trip_keeps_the_raise_time() {
    // Writing a record and reading it back yields the same active state
    // and the same raise time, to the second.
    let raised_at = 1_640_995_200; // 2022-01-01T00:00:00Z
    let contents = render_state(raised_at);
    assert_eq!(read_state(&Some(contents)), AlertState::Active { raised_at });
}

#[test]
fn record_renders_as_a_readable_timestamp() {
    assert_eq!(render_state(1_640_995_200), "Sat, 1 Jan 2022 00:00:00 +0000");
}

#[test]
fn record_with_an_offset_reads_as_the_same_instant() {
    // The same instant written with a non-zero UTC offset, as another
    // machine's clock might have rendered it.
    let contents = String::from("Sat, 1 Jan 2022 01:00:00 +0100");
    assert_eq!(read_state(&Some(contents)), AlertState::Active { raised_at: 1_640_995_200 });
}

#[test]
fn missing_record_reads_as_inactive() {
    assert_eq!(read_state(&None), AlertState::Inactive);
}

#[test]
fn corrupt_record_reads_as_inactive() {
    assert_eq!(read_state(&Some(String::from(""))), AlertState::Inactive);
    assert_eq!(read_state(&Some(String::from("not a timestamp"))), AlertState::Inactive);
    assert_eq!(read_state(&Some(String::from("2022-01-01T00:00:00Z"))), AlertState::Inactive);
}

#[test]
fn record_before_the_epoch_reads_as_inactive() {
    // A parseable instant the record format could never have written.
    assert_eq!(
        read_state(&Some(String::from("Mon, 1 Jan 1900 00:00:00 +0000"))),
        AlertState::Inactive
    );
}

#[test]
fn the_clock_reads_an_in_range_instant() {
    let now = current_timestamp().unwrap();
    assert!(0 <= now && now <= MAX_TIMESTAMP);
    // Well after this library was written.
    assert!(now > 1_600_000_000);
}
