use std::time::{Duration as StdDuration, SystemTime as HostTime, UNIX_EPOCH};

use systime::SystemTime;

#[test]
fn the_host_epoch_is_the_epoch() {
    assert_eq!(SystemTime::from(UNIX_EPOCH), SystemTime::epoch());
    assert_eq!(SystemTime::epoch().to_std(), Some(UNIX_EPOCH));
}

#[test]
fn host_times_lose_what_lies_below_a_millisecond() {
    let host = UNIX_EPOCH + StdDuration::new(5, 123_456_789);
    let t = SystemTime::from(host);
    assert_eq!(t, SystemTime::new(5_123));
    assert_eq!(t.to_std(), Some(UNIX_EPOCH + StdDuration::from_millis(5_123)));
    assert_eq!(SystemTime::from(UNIX_EPOCH + StdDuration::from_nanos(999_999)), SystemTime::epoch());
}

#[test]
fn host_times_before_the_epoch_count_toward_it() {
    let host = UNIX_EPOCH - StdDuration::from_micros(1_500);
    assert_eq!(SystemTime::from(host), SystemTime::new(-1));
    assert_eq!(SystemTime::from(UNIX_EPOCH - StdDuration::from_nanos(1)), SystemTime::epoch());
    assert_eq!(SystemTime::from(UNIX_EPOCH - StdDuration::from_secs(3)), SystemTime::new(-3_000));
}

#[test]
fn instants_survive_the_host_and_back() {
    for count in [0i64, 1, 999, 1_000, 1_700_000_000_000, -1, -1_500, -86_400_000] {
        let t = SystemTime::new(count);
        let host = t.to_std().unwrap();
        assert_eq!(SystemTime::from(host), t);
        let back: SystemTime = host.into();
        assert_eq!(back, t);
    }
}

#[test]
fn to_std_lands_where_the_count_says() {
    assert_eq!(SystemTime::new(2_500).to_std(), Some(UNIX_EPOCH + StdDuration::from_millis(2_500)));
    assert_eq!(SystemTime::new(-2_500).to_std(), Some(UNIX_EPOCH - StdDuration::from_millis(2_500)));
    assert_ne!(SystemTime::new(2_500).to_std(), Some(UNIX_EPOCH));
}

#[test]
fn every_instant_a_host_returns_comes_back() {
    for count in [i64::MIN, i64::MIN + 1, -(1 << 50), 1 << 50, i64::MAX - 1, i64::MAX] {
        let t = SystemTime::new(count);
        if let Some(host) = t.to_std() {
            assert_eq!(SystemTime::from(host), t);
        }
    }
}

#[test]
fn host_times_out_of_range_give_the_nearest_instant() {
    let far = StdDuration::from_secs(10_000_000_000_000_000);
    if let Some(host) = UNIX_EPOCH.checked_add(far) {
        assert_eq!(SystemTime::from(host), SystemTime::new(i64::MAX));
    }
    if let Some(host) = UNIX_EPOCH.checked_sub(far) {
        assert_eq!(SystemTime::from(host), SystemTime::new(i64::MIN));
    }
}

#[test]
fn now_follows_the_host_clock() {
    let before = SystemTime::from(HostTime::now());
    let sampled = SystemTime::now();
    let after = SystemTime::from(HostTime::now());
    assert!(before <= sampled);
    assert!(sampled <= after);
    assert!(sampled > SystemTime::new(1_600_000_000_000));
}

#[test]
fn elapsed_measures_up_to_now() {
    let start = SystemTime::now();
    let waited = start.elapsed();
    let end = SystemTime::now();
    if let Ok(gap) = waited {
        assert!(gap <= end.duration_since(start).unwrap());
    }
    let an_hour_ago = start - StdDuration::from_secs(3_600);
    assert!(an_hour_ago.elapsed().unwrap() >= StdDuration::from_secs(3_600));
    assert!(SystemTime::epoch().elapsed().is_ok());
}

#[test]
fn elapsed_of_a_future_instant_is_an_error() {
    let start = SystemTime::now();
    let in_an_hour = start + StdDuration::from_secs(3_600);
    let err = in_an_hour.elapsed().unwrap_err();
    assert!(err.duration() <= StdDuration::from_secs(3_600));
    assert!(err.duration() > StdDuration::from_secs(3_000));
    assert!(SystemTime::new(i64::MAX).elapsed().is_err());
}
