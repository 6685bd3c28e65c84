use lightwatch::instant::Instant;
use lightwatch::reconcile::{reconcile, Reconciliation};
use lightwatch::store::StoreError;

const T: i64 = 1_700_000_000_000;

fn at(ms: i64) -> Result<Instant, StoreError> {
    Ok(Instant { millis: ms })
}

#[test]
fn outage_after_five_minutes() {
    // heartbeat and resumption both at T, restart at T + 5 min:
    // five minutes off, zero on, and the resumption instant advances.
    let now = Instant { millis: T + 5 * 60_000 };
    match reconcile(at(T), at(T), now) {
        Reconciliation::Outage { report, new_wake_up } => {
            assert_eq!(report, "The power was off for 5 minutes .\nThe power was on for \n");
            assert_eq!(new_wake_up, now);
        },
        _ => panic!("expected an outage"),
    }
}

#[test]
fn brief_restart_after_ten_seconds() {
    // heartbeat at T, restart at T + 10 s: only the on-duration is reported
    // and no new resumption instant is offered.
    let now = Instant { millis: T + 10_000 };
    match reconcile(at(T), at(T - 3_600_000), now) {
        Reconciliation::BriefRestart { report } => {
            assert_eq!(
                report,
                "Less than 1 minute bot outage. Probably updating the bot. The power was on for 1 hours \n"
            );
        },
        _ => panic!("expected a brief restart"),
    }
}

#[test]
fn one_millisecond_gap_is_brief() {
    let now = Instant { millis: T + 1 };
    assert!(matches!(reconcile(at(T), at(T), now), Reconciliation::BriefRestart { .. }));
}

#[test]
fn fifty_nine_seconds_gap_is_brief() {
    let now = Instant { millis: T + 59_999 };
    assert!(matches!(reconcile(at(T), at(T), now), Reconciliation::BriefRestart { .. }));
}

#[test]
fn sixty_seconds_gap_is_an_outage() {
    let now = Instant { millis: T + 60_000 };
    match reconcile(at(T), at(T), now) {
        Reconciliation::Outage { report, new_wake_up } => {
            assert_eq!(report, "The power was off for 1 minutes .\nThe power was on for \n");
            assert_eq!(new_wake_up, now);
        },
        _ => panic!("expected an outage"),
    }
}

#[test]
fn zero_gap_is_an_outage_report() {
    // no detectable gap still reports both durations and advances the slot
    let now = Instant { millis: T };
    match reconcile(at(T), at(T - 90 * 60_000), now) {
        Reconciliation::Outage { report, new_wake_up } => {
            assert_eq!(report, "The power was off for .\nThe power was on for 1 hours 30 minutes \n");
            assert_eq!(new_wake_up, now);
        },
        _ => panic!("expected an outage"),
    }
}

#[test]
fn absent_slots_mean_no_outage() {
    let now = Instant { millis: T };
    match reconcile(Err(StoreError::Missing), Err(StoreError::Missing), now) {
        Reconciliation::Outage { report, new_wake_up } => {
            assert_eq!(report, "The power was off for .\nThe power was on for \n");
            assert_eq!(new_wake_up, now);
        },
        _ => panic!("expected an outage"),
    }
}

#[test]
fn heartbeat_from_the_future_counts_as_zero() {
    // a store reset can leave a heartbeat later than now: off clamps to zero
    let now = Instant { millis: T };
    match reconcile(at(T + 5_000), at(T - 60_000), now) {
        Reconciliation::Outage { report, .. } => {
            assert_eq!(report, "The power was off for .\nThe power was on for 1 minutes \n");
        },
        _ => panic!("expected an outage"),
    }
}

#[test]
fn immediate_rerun_reports_brief_restart() {
    // a run that saw a fresh heartbeat, rerun twenty seconds later with no
    // heartbeat written in between: the second run is a brief restart
    let t1 = Instant { millis: T };
    let first = reconcile(at(T), at(T - 3_600_000), t1);
    let wake_after = match first {
        Reconciliation::Outage { new_wake_up, .. } => new_wake_up,
        Reconciliation::BriefRestart { .. } => panic!("a zero gap is not brief"),
    };
    let t2 = Instant { millis: T + 20_000 };
    match reconcile(at(T), Ok(wake_after), t2) {
        Reconciliation::BriefRestart { report } => {
            assert_eq!(
                report,
                "Less than 1 minute bot outage. Probably updating the bot. The power was on for \n"
            );
        },
        _ => panic!("expected a brief restart"),
    }
}
