use memory_rs::clock::{now_rfc3339, Timestamp};

#[test]
fn epoch_is_written_as_rfc3339() {
    let epoch = Timestamp { secs: 0, nanos: 0 };
    assert_eq!(epoch.to_rfc3339(), Some("1970-01-01T00:00:00+00:00".to_string()));
}

#[test]
fn a_known_time_is_written_as_rfc3339() {
    let time = Timestamp { secs: 1_431_648_000, nanos: 500_000_000 };
    assert_eq!(time.to_rfc3339(), Some("2015-05-15T00:00:00.500+00:00".to_string()));
    assert_eq!(time.to_text(), "2015-05-15T00:00:00.500+00:00");
}

#[test]
fn a_time_out_of_range_has_no_text() {
    assert_eq!(Timestamp { secs: i64::MAX, nanos: 0 }.to_rfc3339(), None);
    assert_eq!(Timestamp { secs: 0, nanos: 3_000_000_000 }.to_rfc3339(), None);
}

#[test]
fn now_has_a_text() {
    let now = Timestamp::now();
    assert!(now.to_rfc3339().is_some());
    assert!(now.secs > 1_600_000_000);
    assert!(now_rfc3339().ends_with("+00:00"));
}

#[test]
fn start_of_day_is_midnight() {
    let time = Timestamp { secs: 1_431_648_000 + 3_661, nanos: 7 };
    assert_eq!(time.start_of_day(), Timestamp { secs: 1_431_648_000, nanos: 0 });
    let midnight = Timestamp { secs: 86_400, nanos: 0 };
    assert_eq!(midnight.start_of_day(), midnight);
}

#[test]
fn start_of_day_before_the_epoch() {
    assert_eq!(
        Timestamp { secs: -1, nanos: 0 }.start_of_day(),
        Timestamp { secs: -86_400, nanos: 0 }
    );
    assert_eq!(
        Timestamp { secs: -86_400, nanos: 5 }.start_of_day(),
        Timestamp { secs: -86_400, nanos: 0 }
    );
    assert_eq!(
        Timestamp { secs: -86_401, nanos: 0 }.start_of_day(),
        Timestamp { secs: -172_800, nanos: 0 }
    );
}
