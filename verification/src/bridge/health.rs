//! Periodic bridge-health monitor: evaluation-licence expiry, snapshot
//! staleness and long VM pauses, plus the once-per-state notification
//! memory and the heartbeat record.

use vstd::prelude::*;

use crate::text::{decimal, join, join_strings, push_decimal, push_signed_decimal, signed_decimal};

verus! {

/// Env var that keeps the daemon from starting the health thread.
pub const NOOP_ENV: &'static str = "NEON_TEST_BRIDGE_HEALTH_NOOP";

/// Seconds between two health checks.
pub const HEALTH_INTERVAL_SECS: u64 = 600;

/// An evaluation licence with fewer days left than this is "expiring soon".
pub const EVAL_NOTIFY_THRESHOLD_DAYS: i64 = 7;

/// A snapshot older than this many whole days is stale.
pub const SNAPSHOT_STALE_DAYS: u64 = 30;

/// A VM paused for more than this many hours needs attention.
pub const PAUSED_NOTIFY_THRESHOLD_HOURS: u64 = 24;

/// File name of the heartbeat under the bridge cache directory.
pub const HEARTBEAT_FILENAME: &'static str = "health-heartbeat";

/// Outcome of one health-check tick.
#[derive(Debug, Clone, PartialEq, Eq)]
pub struct HealthSample {
    /// Days remaining on the trial licence; `None` when not on trial.
    pub eval_days_remaining: Option<i64>,
    /// `true` when the trial has fewer than seven days left (expired
    /// trials included).
    pub eval_expiring_soon: bool,
    /// Hours since the most recent snapshot; `None` when there is none.
    pub snapshot_age_hours: Option<u64>,
    /// `true` when the snapshot is older than the stale threshold.
    pub snapshot_stale: bool,
    /// `true` when the VM is currently paused.
    pub vm_paused: bool,
    /// Hours the VM has been continuously paused.
    pub vm_paused_hours: Option<u64>,
}

/// The healthy sample: nothing known, nothing flagged.
pub open spec fn blank_sample() -> HealthSample {
    HealthSample {
        eval_days_remaining: None,
        eval_expiring_soon: false,
        snapshot_age_hours: None,
        snapshot_stale: false,
        vm_paused: false,
        vm_paused_hours: None,
    }
}

impl Default for HealthSample {
    fn default() -> (s: Self)
        ensures
            s == blank_sample(),
    {
        HealthSample {
            eval_days_remaining: None,
            eval_expiring_soon: false,
            snapshot_age_hours: None,
            snapshot_stale: false,
            vm_paused: false,
            vm_paused_hours: None,
        }
    }
}

/// A trial with `days` left is expiring soon when `days < 7` (an expired
/// trial, with negative days, included).
pub open spec fn eval_expiring(days: Option<i64>) -> bool {
    match days {
        Some(d) => d < EVAL_NOTIFY_THRESHOLD_DAYS,
        None => false,
    }
}

/// A snapshot `hours` old is stale when its age in whole days exceeds the
/// threshold.
pub open spec fn snapshot_is_stale(hours: Option<u64>) -> bool {
    match hours {
        Some(h) => h / 24 > SNAPSHOT_STALE_DAYS,
        None => false,
    }
}

/// A VM paused for `hours` counts as paused when that is more than zero.
pub open spec fn paused_for(hours: Option<u64>) -> bool {
    match hours {
        Some(h) => h > 0,
        None => false,
    }
}

/// The pause has lasted past the notification threshold.
pub open spec fn paused_too_long(hours: Option<u64>) -> bool {
    match hours {
        Some(h) => h > PAUSED_NOTIFY_THRESHOLD_HOURS,
        None => false,
    }
}

/// The flags of a sample agree with the raw values they are derived from
/// (what `collect` and the `with_*` builders establish).
pub open spec fn consistent(s: HealthSample) -> bool {
    &&& s.eval_expiring_soon == eval_expiring(s.eval_days_remaining)
    &&& s.snapshot_stale == snapshot_is_stale(s.snapshot_age_hours)
    &&& s.vm_paused == paused_for(s.vm_paused_hours)
}

/// The sample warrants a tray alert.
pub open spec fn attention(s: HealthSample) -> bool {
    s.eval_expiring_soon || s.snapshot_stale || paused_too_long(s.vm_paused_hours)
}

/// The fragments of the notification body, most urgent first.
pub open spec fn notification_parts(s: HealthSample) -> Seq<Seq<char>> {
    let eval: Seq<Seq<char>> = if s.eval_expiring_soon && s.eval_days_remaining is Some {
        seq![
            "Eval expires in "@ + signed_decimal(s.eval_days_remaining->0 as int)
                + " day(s). Run `neon stream license --rearm`."@,
        ]
    } else {
        Seq::empty()
    };
    let stale: Seq<Seq<char>> = if s.snapshot_stale {
        seq!["Bridge snapshot is stale. Consider `neon stream repair --refresh-snapshot`."@]
    } else {
        Seq::empty()
    };
    let paused: Seq<Seq<char>> = if paused_too_long(s.vm_paused_hours) {
        seq![
            "Bridge VM has been paused for "@ + decimal(s.vm_paused_hours->0 as nat)
                + " hours."@,
        ]
    } else {
        Seq::empty()
    };
    eval + stale + paused
}

/// The notification body for a sample, when one is warranted.
pub open spec fn notification(s: HealthSample) -> Option<Seq<char>> {
    if attention(s) {
        Some(join(notification_parts(s), " "@))
    } else {
        None
    }
}

/// The most urgent condition of a sample, as a short label.
pub open spec fn priority(s: HealthSample) -> Seq<char> {
    if s.eval_expiring_soon {
        "Eval license"@
    } else if s.snapshot_stale {
        "Stale snapshot"@
    } else if s.vm_paused {
        "Paused VM"@
    } else {
        "Healthy"@
    }
}

impl HealthSample {
    /// Builds the sample of one tick from the licence's remaining trial
    /// days (`None` when not on trial). Snapshot and VM state start unknown.
    pub fn collect(eval_days_remaining: Option<i64>) -> (s: Self)
        ensures
            s == (HealthSample {
                eval_days_remaining,
                eval_expiring_soon: eval_expiring(eval_days_remaining),
                ..blank_sample()
            }),
    {
        let eval_expiring_soon = match eval_days_remaining {
            Some(d) => d < EVAL_NOTIFY_THRESHOLD_DAYS,
            None => false,
        };
        HealthSample {
            eval_days_remaining,
            eval_expiring_soon,
            snapshot_age_hours: None,
            snapshot_stale: false,
            vm_paused: false,
            vm_paused_hours: None,
        }
    }

    /// Records the snapshot age and recomputes staleness from it.
    pub fn with_snapshot_age_hours(self, hours: Option<u64>) -> (s: Self)
        ensures
            s == (HealthSample {
                snapshot_age_hours: hours,
                snapshot_stale: snapshot_is_stale(hours),
                ..self
            }),
    {
        let stale = match hours {
            Some(h) => h / 24 > SNAPSHOT_STALE_DAYS,
            None => false,
        };
        HealthSample { snapshot_age_hours: hours, snapshot_stale: stale, ..self }
    }

    /// Records how long the VM has been paused and recomputes `vm_paused`.
    pub fn with_paused_hours(self, hours: Option<u64>) -> (s: Self)
        ensures
            s == (HealthSample { vm_paused_hours: hours, vm_paused: paused_for(hours), ..self }),
    {
        let paused = match hours {
            Some(h) => h > 0,
            None => false,
        };
        HealthSample { vm_paused_hours: hours, vm_paused: paused, ..self }
    }

    /// `true` when the sample warrants a tray alert badge.
    pub fn needs_attention(&self) -> (b: bool)
        ensures
            b == attention(*self),
    {
        let paused_long = match self.vm_paused_hours {
            Some(h) => h > PAUSED_NOTIFY_THRESHOLD_HOURS,
            None => false,
        };
        self.eval_expiring_soon || self.snapshot_stale || paused_long
    }

    /// The user-facing notification body: `None` unless the sample needs
    /// attention, otherwise the applicable sentences joined by spaces.
    pub fn compose_notification(&self) -> (body: Option<String>)
        ensures
            body.deep_view() == notification(*self),
    {
        if !self.needs_attention() {
            return None;
        }
        let mut parts: Vec<String> = Vec::new();
        if self.eval_expiring_soon {
            if let Some(days) = self.eval_days_remaining {
                let mut p = "Eval expires in ".to_owned();
                push_signed_decimal(&mut p, days);
                p.append(" day(s). Run `neon stream license --rearm`.");
                parts.push(p);
            }
        }
        if self.snapshot_stale {
            parts.push(
                "Bridge snapshot is stale. Consider `neon stream repair --refresh-snapshot`.".to_owned(),
            );
        }
        if let Some(h) = self.vm_paused_hours {
            if h > PAUSED_NOTIFY_THRESHOLD_HOURS {
                let mut p = "Bridge VM has been paused for ".to_owned();
                push_decimal(&mut p, h);
                p.append(" hours.");
                parts.push(p);
            }
        }
        assert(parts.deep_view() =~= notification_parts(*self));
        Some(join_strings(&parts, " "))
    }

    /// Label of the most urgent condition: eval licence, then stale
    /// snapshot, then paused VM, else "Healthy".
    pub fn priority_label(&self) -> (label: &'static str)
        ensures
            label@ == priority(*self),
    {
        if self.eval_expiring_soon {
            "Eval license"
        } else if self.snapshot_stale {
            "Stale snapshot"
        } else if self.vm_paused {
            "Paused VM"
        } else {
            "Healthy"
        }
    }
}

/// The eval-expiry notification is due: the trial is expiring soon and its
/// day count differs from the one last notified about.
pub open spec fn eval_notice_due(s: HealthSample, last_day: Option<i64>) -> bool {
    s.eval_expiring_soon && s.eval_days_remaining is Some && s.eval_days_remaining != last_day
}

/// The stale-snapshot notification is due: the snapshot is stale and its age
/// in whole days differs from the one last notified about.
pub open spec fn snapshot_notice_due(s: HealthSample, last_age_days: Option<u64>) -> bool {
    s.snapshot_stale && s.snapshot_age_hours is Some && Some(
        (s.snapshot_age_hours->0 / 24) as u64,
    ) != last_age_days
}

/// The messages one notification pass sends.
pub open spec fn notices(s: HealthSample, last_day: Option<i64>, last_age_days: Option<u64>) -> Seq<
    Seq<char>,
> {
    let eval: Seq<Seq<char>> = if eval_notice_due(s, last_day) {
        seq![
            "Bridge eval expires in "@ + signed_decimal(s.eval_days_remaining->0 as int)
                + " day(s). Run `neon stream license --rearm` to extend."@,
        ]
    } else {
        Seq::empty()
    };
    let stale: Seq<Seq<char>> = if snapshot_notice_due(s, last_age_days) {
        seq!["Bridge snapshot is stale. Run `neon stream repair --refresh-snapshot` when convenient."@]
    } else {
        Seq::empty()
    };
    eval + stale
}

/// The eval-day memory after a notification pass.
pub open spec fn next_eval_memory(s: HealthSample, last_day: Option<i64>) -> Option<i64> {
    if eval_notice_due(s, last_day) {
        s.eval_days_remaining
    } else {
        last_day
    }
}

/// The snapshot-age memory after a notification pass.
pub open spec fn next_snapshot_memory(s: HealthSample, last_age_days: Option<u64>) -> Option<u64> {
    if snapshot_notice_due(s, last_age_days) {
        Some((s.snapshot_age_hours->0 / 24) as u64)
    } else {
        last_age_days
    }
}

/// One notification pass of the monitor. Returns the messages to show and
/// updates the memories so that each eval day count, and each stale
/// snapshot age in days, is announced only once.
pub fn emit_notifications(
    sample: &HealthSample,
    last_eval_notify_day: &mut Option<i64>,
    last_snapshot_notify_age: &mut Option<u64>,
) -> (messages: Vec<String>)
    ensures
        messages.deep_view() == notices(*sample, *old(last_eval_notify_day), *old(
            last_snapshot_notify_age,
        )),
        *final(last_eval_notify_day) == next_eval_memory(*sample, *old(last_eval_notify_day)),
        *final(last_snapshot_notify_age) == next_snapshot_memory(
            *sample,
            *old(last_snapshot_notify_age),
        ),
{
    let mut messages: Vec<String> = Vec::new();
    if sample.eval_expiring_soon {
        if let Some(days) = sample.eval_days_remaining {
            let differs = match *last_eval_notify_day {
                Some(last) => last != days,
                None => true,
            };
            if differs {
                let mut m = "Bridge eval expires in ".to_owned();
                push_signed_decimal(&mut m, days);
                m.append(" day(s). Run `neon stream license --rearm` to extend.");
                messages.push(m);
                *last_eval_notify_day = Some(days);
            }
        }
    }
    if sample.snapshot_stale {
        if let Some(age) = sample.snapshot_age_hours {
            let age_days = age / 24;
            let differs = match *last_snapshot_notify_age {
                Some(last) => last != age_days,
                None => true,
            };
            if differs {
                messages.push(
                    "Bridge snapshot is stale. Run `neon stream repair --refresh-snapshot` when convenient.".to_owned(),
                );
                *last_snapshot_notify_age = Some(age_days);
            }
        }
    }
    assert(messages.deep_view() =~= notices(
        *sample,
        *old(last_eval_notify_day),
        *old(last_snapshot_notify_age),
    ));
    messages
}

/// Whether the monitor's next check is due: the clock went backwards, or
/// at least `interval_nanos` passed since the last check (times in
/// nanoseconds since the UNIX epoch).
pub fn tick_due(now_nanos: u128, last_tick_nanos: u128, interval_nanos: u128) -> (due: bool)
    ensures
        due == (now_nanos < last_tick_nanos || now_nanos - last_tick_nanos >= interval_nanos),
{
    now_nanos < last_tick_nanos || now_nanos - last_tick_nanos >= interval_nanos
}

/// The heartbeat record: check time, priority label and attention flag.
pub open spec fn heartbeat_text(now_secs: u64, s: HealthSample) -> Seq<char> {
    "ts="@ + decimal(now_secs as nat) + "\nlabel="@ + priority(s) + "\nattention="@ + (if attention(
        s,
    ) {
        "true"@
    } else {
        "false"@
    }) + "\n"@
}

/// Renders the heartbeat file body for a check made at `now_secs`.
pub fn heartbeat_body(now_secs: u64, sample: &HealthSample) -> (body: String)
    ensures
        body@ == heartbeat_text(now_secs, *sample),
{
    let mut body = "ts=".to_owned();
    push_decimal(&mut body, now_secs);
    body.append("\nlabel=");
    body.append(sample.priority_label());
    body.append("\nattention=");
    if sample.needs_attention() {
        body.append("true");
    } else {
        body.append("false");
    }
    body.append("\n");
    body
}

/// A notification body is composed exactly when the sample needs attention.
pub proof fn lemma_notification_iff_attention(s: HealthSample)
    ensures
        notification(s) is Some <==> attention(s),
{
}

/// A sample whose flags agree with its raw values and that needs attention
/// never reports "Healthy".
pub proof fn lemma_attention_is_never_healthy(s: HealthSample)
    requires
        consistent(s),
        attention(s),
    ensures
        priority(s) != "Healthy"@,
{
    reveal_strlit("Healthy");
    reveal_strlit("Eval license");
    reveal_strlit("Stale snapshot");
    reveal_strlit("Paused VM");
    if s.eval_expiring_soon {
        assert(priority(s)[0] != "Healthy"@[0]);
    } else if s.snapshot_stale {
        assert(priority(s)[0] != "Healthy"@[0]);
    } else {
        assert(s.vm_paused);
        assert(priority(s)[0] != "Healthy"@[0]);
    }
}

/// The blank sample is healthy and composes no notification.
pub proof fn lemma_blank_sample_is_healthy()
    ensures
        !attention(blank_sample()),
        priority(blank_sample()) == "Healthy"@,
        notification(blank_sample()) is None,
        consistent(blank_sample()),
{
}

/// `collect` and the `with_*` builders produce samples whose flags agree
/// with their raw values.
pub proof fn lemma_builders_keep_consistency(
    days: Option<i64>,
    s: HealthSample,
    snapshot_hours: Option<u64>,
    paused_hours: Option<u64>,
)
    requires
        consistent(s),
    ensures
        consistent(HealthSample { eval_days_remaining: days, eval_expiring_soon: eval_expiring(days), ..blank_sample() }),
        consistent(HealthSample { snapshot_age_hours: snapshot_hours, snapshot_stale: snapshot_is_stale(snapshot_hours), ..s }),
        consistent(HealthSample { vm_paused_hours: paused_hours, vm_paused: paused_for(paused_hours), ..s }),
{
}

/// A second notification pass over the same sample sends nothing and
/// leaves the memories as the first pass set them.
pub proof fn lemma_notifications_are_announced_once(
    s: HealthSample,
    last_day: Option<i64>,
    last_age_days: Option<u64>,
)
    ensures
        notices(s, next_eval_memory(s, last_day), next_snapshot_memory(s, last_age_days)).len()
            == 0,
        next_eval_memory(s, next_eval_memory(s, last_day)) == next_eval_memory(s, last_day),
        next_snapshot_memory(s, next_snapshot_memory(s, last_age_days)) == next_snapshot_memory(
            s,
            last_age_days,
        ),
{
}

/// The stale-snapshot notice.
pub open spec fn stale_snapshot_notice() -> Seq<char> {
    "Bridge snapshot is stale. Run `neon stream repair --refresh-snapshot` when convenient."@
}

/// The eval-expiry notice for `days` remaining.
pub open spec fn eval_expiry_notice(days: i64) -> Seq<char> {
    "Bridge eval expires in "@ + signed_decimal(days as int)
        + " day(s). Run `neon stream license --rearm` to extend."@
}

/// The two checks of a notification pass are independent. A stale
/// snapshot whose age in whole days differs from the age last announced is
/// announced, whatever the eval check does, and the snapshot memory then
/// moves to that age; otherwise the notice is not sent and the memory stays.
/// Likewise a trial expiring soon whose day count differs from the one last
/// announced is announced with that count, whatever the snapshot check
/// does, and the eval memory moves to it; otherwise it stays. A pass sends
/// nothing else.
pub proof fn lemma_notices_are_independent(
    s: HealthSample,
    last_day: Option<i64>,
    last_age_days: Option<u64>,
)
    ensures
        ({
            let due = s.snapshot_stale && s.snapshot_age_hours is Some && last_age_days != Some(
                (s.snapshot_age_hours->0 / 24) as u64,
            );
            &&& due ==> notices(s, last_day, last_age_days).contains(stale_snapshot_notice())
            &&& due ==> next_snapshot_memory(s, last_age_days) == Some(
                (s.snapshot_age_hours->0 / 24) as u64,
            )
            &&& !due ==> !notices(s, last_day, last_age_days).contains(stale_snapshot_notice())
            &&& !due ==> next_snapshot_memory(s, last_age_days) == last_age_days
        }),
        ({
            let due = s.eval_expiring_soon && s.eval_days_remaining is Some && last_day
                != s.eval_days_remaining;
            &&& due ==> notices(s, last_day, last_age_days).contains(
                eval_expiry_notice(s.eval_days_remaining->0),
            )
            &&& due ==> next_eval_memory(s, last_day) == s.eval_days_remaining
            &&& !due ==> next_eval_memory(s, last_day) == last_day
        }),
        forall|k: int|
            0 <= k < notices(s, last_day, last_age_days).len() ==> {
                let m = #[trigger] notices(s, last_day, last_age_days)[k];
                m == stale_snapshot_notice() || (s.eval_days_remaining is Some && m
                    == eval_expiry_notice(s.eval_days_remaining->0))
            },
        notices(s, last_day, last_age_days).len() <= 2,
{
    reveal_strlit("Bridge snapshot is stale. Run `neon stream repair --refresh-snapshot` when convenient.");
    reveal_strlit("Bridge eval expires in ");
    let n = notices(s, last_day, last_age_days);
    if s.eval_days_remaining is Some {
        let e = eval_expiry_notice(s.eval_days_remaining->0);
        assert(e[7] == 'e');
        assert(stale_snapshot_notice()[7] == 's');
        assert(e != stale_snapshot_notice());
    }
    if eval_notice_due(s, last_day) {
        assert(n[0] == eval_expiry_notice(s.eval_days_remaining->0));
        if snapshot_notice_due(s, last_age_days) {
            assert(n[1] == stale_snapshot_notice());
        }
    } else if snapshot_notice_due(s, last_age_days) {
        assert(n[0] == stale_snapshot_notice());
    }
}

} // verus!
