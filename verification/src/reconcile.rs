//! The outage reconciler: the one-shot startup computation that compares the
//! last liveness heartbeat against the current instant to infer how long
//! power was off and how long it had previously been on.
//!
//! A read that failed or found nothing is substituted with the current
//! instant ("no prior record" means "no outage"), and a negative computed
//! duration is treated as zero, since the store may have been reset. A gap
//! that is positive but under one minute is classified as a brief restart
//! (a redeploy rather than a real outage): only the on-duration is reported
//! and the stored resumption instant is left alone. Every other gap -
//! including none at all - is reported with both durations, and the
//! resumption instant advances to the reconciliation instant.

use vstd::prelude::*;
use vstd::string::StringExecFns;
use crate::instant::Instant;
use crate::render::{duration_formatter, spec_format};
use crate::store::{power_on_time_key, wake_up_time_key, RedisClient, StoreError};

verus! {

/// The heuristic threshold below which a positive heartbeat gap is taken for
/// a process redeploy rather than a power outage.
pub const BRIEF_RESTART_MILLIS: i64 = 60_000;

/// A read result, with the current instant substituted for anything absent
/// or unreadable.
pub open spec fn or_now(read: Result<Instant, StoreError>, now: Instant) -> Instant {
    match read {
        Ok(t) => t,
        Err(_) => now,
    }
}

/// A computed duration is never taken as negative.
pub open spec fn clamp0(x: int) -> int {
    if x < 0 {
        0
    } else {
        x
    }
}

/// How long power was off: the gap between the last heartbeat and now.
pub open spec fn off_millis(stored: Result<Instant, StoreError>, now: Instant) -> int {
    clamp0(now.millis - or_now(stored, now).millis)
}

/// How long power had been on: the part of the span since the last resumption
/// not covered by the off-gap.
pub open spec fn on_millis(
    stored: Result<Instant, StoreError>,
    wake_up: Result<Instant, StoreError>,
    now: Instant,
) -> int {
    clamp0((now.millis - or_now(wake_up, now).millis) - off_millis(stored, now))
}

/// The disambiguation heuristic: a strictly positive gap under one minute is
/// a brief restart, not an outage.
pub open spec fn brief_restart(stored: Result<Instant, StoreError>, now: Instant) -> bool {
    0 < off_millis(stored, now) < BRIEF_RESTART_MILLIS as int
}

/// The report sent for a brief restart: only the on-duration.
pub open spec fn brief_report(on: int) -> Seq<char> {
    "Less than 1 minute bot outage. Probably updating the bot. The power was on for "@
        + spec_format(on) + "\n"@
}

/// The report sent for an outage (or for no detectable gap at all): both the
/// off- and the on-duration.
pub open spec fn outage_report(off: int, on: int) -> Seq<char> {
    "The power was off for "@ + spec_format(off) + ".\nThe power was on for "@ + spec_format(on)
        + "\n"@
}

/// What one reconciliation decided: the report to send, and for a genuine
/// outage the new resumption instant to persist.
pub enum Reconciliation {
    BriefRestart { report: String },
    Outage { report: String, new_wake_up: Instant },
}

impl Reconciliation {
    /// Whether the gap was classified as a brief restart.
    pub open spec fn is_brief(self) -> bool {
        self matches Reconciliation::BriefRestart { .. }
    }

    /// The report text.
    pub open spec fn report_view(self) -> Seq<char> {
        match self {
            Reconciliation::BriefRestart { report } => report@,
            Reconciliation::Outage { report, .. } => report@,
        }
    }

    /// The resumption instant to persist, if any.
    pub open spec fn wake_update(self) -> Option<Instant> {
        match self {
            Reconciliation::BriefRestart { .. } => None,
            Reconciliation::Outage { new_wake_up, .. } => Some(new_wake_up),
        }
    }

    /// The report, for a caller that only sends it.
    pub fn report(&self) -> (s: &String)
        ensures
            s@ == self.report_view(),
    {
        match self {
            Reconciliation::BriefRestart { report } => report,
            Reconciliation::Outage { report, .. } => report,
        }
    }
}

/// The reconciliation decision: given the two reads and the current instant,
/// classifies the heartbeat gap, renders the report, and says whether the
/// resumption instant advances. A strictly positive gap under one minute is
/// reported as a brief restart and leaves the resumption instant alone;
/// every other gap (zero, or a minute and more) is reported with both
/// durations and advances the resumption instant to `now`.
pub fn reconcile(
    stored: Result<Instant, StoreError>,
    wake_up: Result<Instant, StoreError>,
    now: Instant,
) -> (r: Reconciliation)
    requires
        now.valid(),
        stored matches Ok(t) ==> t.valid(),
        wake_up matches Ok(t) ==> t.valid(),
    ensures
        r.is_brief() == brief_restart(stored, now),
        r.report_view() == (if brief_restart(stored, now) {
            brief_report(on_millis(stored, wake_up, now))
        } else {
            outage_report(off_millis(stored, now), on_millis(stored, wake_up, now))
        }),
        r.wake_update() == (if brief_restart(stored, now) {
            None
        } else {
            Some(now)
        }),
{
    let st = match stored {
        Ok(t) => t,
        Err(_) => now,
    };
    let wk = match wake_up {
        Ok(t) => t,
        Err(_) => now,
    };
    let mut off: i64 = now.millis - st.millis;
    if off < 0 {
        off = 0;
    }
    let mut on: i64 = (now.millis - wk.millis) - off;
    if on < 0 {
        on = 0;
    }
    assert(off as int == off_millis(stored, now));
    assert(on as int == on_millis(stored, wake_up, now));
    let on_text = duration_formatter(on);
    if 0 < off && off < BRIEF_RESTART_MILLIS {
        let mut report = String::from_str(
            "Less than 1 minute bot outage. Probably updating the bot. The power was on for ",
        );
        report.append(on_text.as_str());
        report.append("\n");
        assert(report@ =~= brief_report(on as int));
        Reconciliation::BriefRestart { report }
    } else {
        let off_text = duration_formatter(off);
        let mut report = String::from_str("The power was off for ");
        report.append(off_text.as_str());
        report.append(".\nThe power was on for ");
        report.append(on_text.as_str());
        report.append("\n");
        assert(report@ =~= outage_report(off as int, on as int));
        Reconciliation::Outage { report, new_wake_up: now }
    }
}

/// Startup reconciliation against the store: reads the heartbeat and the
/// prior resumption instant and decides as `reconcile` does. Whatever the
/// store answered, a resumption update is only ever the instant `now` given
/// here, and the report is one of the two fixed phrasings over non-negative
/// spans.
pub fn reconcile_with_store(client: &RedisClient, now: Instant) -> (r: Reconciliation)
    requires
        now.valid(),
    ensures
        r.wake_update() matches Some(t) ==> t == now,
        exists|off: int, on: int|
            #![trigger brief_report(on), outage_report(off, on)]
            0 <= off && 0 <= on && (r.report_view() == brief_report(on) || r.report_view()
                == outage_report(off, on)),
{
    let stored = client.get(power_on_time_key());
    let wake_up = client.get(wake_up_time_key());
    let r = reconcile(stored, wake_up, now);
    proof {
        let off = off_millis(stored, now);
        let on = on_millis(stored, wake_up, now);
        assert(0 <= off && 0 <= on && (r.report_view() == brief_report(on) || r.report_view()
            == outage_report(off, on)));
    }
    r
}

/// Law: rerunning the reconciler in immediate succession is classified as a
/// brief restart and therefore leaves the stored resumption instant alone.
/// Precisely: when a run at `t1` read a heartbeat `h` as fresh as `t1`
/// itself (it observed no gap, and none has been written since), any second
/// run strictly within the following minute observes a gap that is positive
/// and under the threshold, so it takes the brief-restart branch, whose
/// update is `None`. A first run that had already observed a real gap - a
/// heartbeat a minute or more old - makes the second run report an outage
/// again, so no such claim holds there.
pub proof fn lemma_rerun_is_brief_restart(h: Instant, t1: Instant, t2: Instant)
    requires
        h.millis == t1.millis,
        t1.millis < t2.millis < t1.millis + BRIEF_RESTART_MILLIS,
    ensures
        !brief_restart(Ok(h), t1),
        brief_restart(Ok(h), t2),
{
}

} // verus!
