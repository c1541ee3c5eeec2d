use shorten_rs::time::{now, TimeSpan, UnixTime};

#[test]
fn instants_move_later_with_carry() {
    let t = UnixTime {
        secs: 1,
        nanos: 600_000_000,
    };
    let span = TimeSpan {
        secs: 2,
        nanos: 500_000_000,
    };
    assert_eq!(
        t.later_by(span),
        UnixTime {
            secs: 4,
            nanos: 100_000_000
        }
    );
    let before = UnixTime {
        secs: -3,
        nanos: 0,
    };
    assert_eq!(
        before.later_by(TimeSpan::from_secs(5)),
        UnixTime { secs: 2, nanos: 0 }
    );
}

#[test]
fn the_longest_span_moves_an_instant_past_every_u64_second() {
    let t = UnixTime::from_secs(10).later_by(TimeSpan::max());
    assert_eq!(t.secs, u64::MAX as i128 + 10);
    assert_eq!(t.nanos, 999_999_999);
}

#[test]
fn instants_before_the_epoch_round_down() {
    let ahead = TimeSpan {
        secs: 1,
        nanos: 500_000_000,
    };
    assert_eq!(
        UnixTime::before_epoch(ahead),
        UnixTime {
            secs: -2,
            nanos: 500_000_000
        }
    );
    assert_eq!(
        UnixTime::before_epoch(TimeSpan::from_secs(7)),
        UnixTime { secs: -7, nanos: 0 }
    );
    assert_eq!(
        UnixTime::after_epoch(ahead),
        UnixTime {
            secs: 1,
            nanos: 500_000_000
        }
    );
}

#[test]
fn the_clock_reads_after_2020() {
    let t = now();
    assert!(t.secs > 1_577_836_800);
    assert!(t.nanos < 1_000_000_000);
}
