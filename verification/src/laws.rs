//! Laws of the engine: what holds of every table, every time and every
//! order of events, proved from the definitions of the operations.

use crate::check::{CheckStatus, CheckView};
use crate::notification::{AlertEntry, DeliveryStatus, DispatchOutcomeView, NotificationView};
use crate::repository::check::{alerts_after_scan, answers, evaluated_table, key_known, pinged_table};
use crate::repository::queue::{
    batch_claimed, deliverable, has_outstanding, lemma_raised_entry, lemma_raising_keeps_queue,
    lemma_wanting_channel_served, outcomes_recorded, queue_wf, raised_for_check, wants_alert,
};
use vstd::prelude::*;

verus! {

/// A valid ping brings a check up, whatever its status was, and sets the
/// time of its last ping to the time of the ping. Nothing else of the
/// check changes.
pub proof fn lemma_ping_brings_up(checks: Seq<CheckView>, key: Seq<char>, now: i64, i: int)
    requires
        0 <= i < checks.len(),
        answers(checks[i], key),
    ensures
        pinged_table(checks, key, now)[i].status == CheckStatus::Up,
        pinged_table(checks, key, now)[i].last_ping_at == Some(now),
        pinged_table(checks, key, now)[i] == (CheckView {
            status: CheckStatus::Up,
            last_ping_at: Some(now),
            ..checks[i]
        }),
{
}

/// A ping with a key that no live check answers changes no check.
pub proof fn lemma_unknown_key_is_inert(checks: Seq<CheckView>, key: Seq<char>, now: i64)
    requires
        !key_known(checks, key),
    ensures
        pinged_table(checks, key, now) == checks,
{
    assert(pinged_table(checks, key, now) =~= checks);
}

/// A ping changes only the checks that answer its key.
pub proof fn lemma_ping_spares_others(checks: Seq<CheckView>, key: Seq<char>, now: i64, i: int)
    requires
        0 <= i < checks.len(),
        !answers(checks[i], key),
    ensures
        pinged_table(checks, key, now)[i] == checks[i],
{
}

/// A check that was never pinged, or that is deleted, is never found
/// overdue, and an overdue evaluation leaves it as it is.
pub proof fn lemma_ineligible_is_left_alone(c: CheckView, now: i64)
    requires
        c.status == CheckStatus::Created || c.last_ping_at is None || c.deleted,
    ensures
        !c.overdue(now),
        c.evaluated(now) == c,
{
}

/// An eligible check whose ping period has run out goes down, with or
/// without grace: the grace period does not delay the transition.
pub proof fn lemma_lapse_brings_down(c: CheckView, now: i64)
    requires
        c.eligible(),
        now > c.ping_deadline(),
    ensures
        c.overdue(now),
        c.evaluated(now).status == CheckStatus::Down,
        c.evaluated(now) == (CheckView { status: CheckStatus::Down, ..c }),
{
}

/// An overdue evaluation is idempotent: a second one at the same time finds
/// the same lapse and changes nothing more.
pub proof fn lemma_evaluation_is_idempotent(c: CheckView, now: i64)
    ensures
        c.evaluated(now).overdue(now) == c.overdue(now),
        c.evaluated(now).evaluated(now) == c.evaluated(now),
{
}

/// The initial status is never entered again: no ping and no overdue
/// evaluation puts a check into it.
pub proof fn lemma_created_is_never_entered(c: CheckView, now: i64)
    ensures
        c.pinged(now).status != CheckStatus::Created,
        c.evaluated(now).status == CheckStatus::Created ==> c.status == CheckStatus::Created,
        c.downed().status != CheckStatus::Created,
{
}

/// Only a ping sets the time of the last ping, and only the detector
/// brings a check down: an overdue evaluation keeps the time, and a ping
/// never leaves a check down.
pub proof fn lemma_writers_are_separate(c: CheckView, now: i64)
    ensures
        c.evaluated(now).last_ping_at == c.last_ping_at,
        c.pinged(now).status == CheckStatus::Up,
        c.evaluated(now).status == CheckStatus::Down ==> c.status == CheckStatus::Down || c.overdue(now),
{
}

/// A lapse stays a lapse: a check that is found overdue is found overdue
/// at every later time, until something changes the check. Periods are
/// taken as they are, negative ones too.
pub proof fn lemma_lapse_persists(c: CheckView, now: i64, later: i64)
    requires
        c.overdue(now),
        now <= later,
    ensures
        c.overdue(later),
        c.evaluated(now).overdue(later),
{
}

/// A detector tick keeps the queue's invariant, touches no entry that was
/// in the queue, and only adds to its end.
pub proof fn lemma_scan_keeps_queue(
    checks: Seq<CheckView>,
    channels: Seq<NotificationView>,
    alerts: Seq<AlertEntry>,
    now: i64,
)
    requires
        queue_wf(channels, alerts),
        alerts_after_scan(checks, channels, alerts, now).len() <= u64::MAX,
    ensures
        queue_wf(channels, alerts_after_scan(checks, channels, alerts, now)),
        alerts.len() <= alerts_after_scan(checks, channels, alerts, now).len(),
        alerts_after_scan(checks, channels, alerts, now).take(alerts.len() as int) == alerts,
    decreases checks.len(),
{
    let after = alerts_after_scan(checks, channels, alerts, now);
    if checks.len() == 0 {
        assert(after.take(alerts.len() as int) =~= alerts);
    } else {
        let before = alerts_after_scan(checks.drop_last(), channels, alerts, now);
        lemma_scan_keeps_queue(checks.drop_last(), channels, alerts, now);
        if checks.last().overdue(now) {
            lemma_raising_keeps_queue(channels, before, checks.last().id, now);
        }
        assert(after.take(alerts.len() as int) =~= before.take(alerts.len() as int));
    }
}

/// Every entry that a detector tick adds is a fresh alert: queued, raised
/// for a down check at the time of the tick, with no outcome and no lock,
/// and with the full retry budget of a live channel of a lapsed check.
pub proof fn lemma_scan_raises_fresh_alerts(
    checks: Seq<CheckView>,
    channels: Seq<NotificationView>,
    alerts: Seq<AlertEntry>,
    now: i64,
    k: int,
) -> (r: (int, int))
    requires
        alerts.len() <= k < alerts_after_scan(checks, channels, alerts, now).len() <= u64::MAX,
    ensures
        0 <= r.0 < checks.len(),
        0 <= r.1 < channels.len(),
        checks[r.0].overdue(now),
        !channels[r.1].deleted,
        channels[r.1].check_id == checks[r.0].id,
        !has_outstanding(alerts, checks[r.0].id, channels[r.1].id),
        alerts_after_scan(checks, channels, alerts, now)[k] == AlertEntry::raised(
            k as u64,
            checks[r.0].id,
            channels[r.1].id,
            channels[r.1].max_retries,
            now,
        ),
    decreases checks.len(),
{
    let rest = checks.drop_last();
    let before = alerts_after_scan(rest, channels, alerts, now);
    if k < before.len() {
        let r = lemma_scan_raises_fresh_alerts(rest, channels, alerts, now, k);
        r
    } else {
        let i = checks.len() - 1;
        let m = lemma_raised_entry(channels, before, checks[i].id, now, k - before.len());
        lemma_scan_prefix(rest, channels, alerts, now);
        assert(!has_outstanding(alerts, checks[i].id, channels[m].id)) by {
            if has_outstanding(alerts, checks[i].id, channels[m].id) {
                let w = choose|w: int|
                    0 <= w < alerts.len() && (#[trigger] alerts[w]).outstanding_for(checks[i].id, channels[m].id);
                assert(before[w] == before.take(alerts.len() as int)[w]);
                assert(before[w].outstanding_for(checks[i].id, channels[m].id));
            }
        }
        (i, m)
    }
}

/// A detector tick only adds to the end of the queue.
pub proof fn lemma_scan_prefix(
    checks: Seq<CheckView>,
    channels: Seq<NotificationView>,
    alerts: Seq<AlertEntry>,
    now: i64,
)
    ensures
        alerts.len() <= alerts_after_scan(checks, channels, alerts, now).len(),
        alerts_after_scan(checks, channels, alerts, now).take(alerts.len() as int) == alerts,
    decreases checks.len(),
{
    let after = alerts_after_scan(checks, channels, alerts, now);
    if checks.len() == 0 {
        assert(after.take(alerts.len() as int) =~= alerts);
    } else {
        let before = alerts_after_scan(checks.drop_last(), channels, alerts, now);
        lemma_scan_prefix(checks.drop_last(), channels, alerts, now);
        assert(after.take(alerts.len() as int) =~= before.take(alerts.len() as int));
    }
}

/// After a detector tick, every live channel of every lapsed check has an
/// outstanding alert. With the queue's invariant it has exactly one.
pub proof fn lemma_scan_serves_every_channel(
    checks: Seq<CheckView>,
    channels: Seq<NotificationView>,
    alerts: Seq<AlertEntry>,
    now: i64,
    i: int,
    m: int,
)
    requires
        0 <= i < checks.len(),
        0 <= m < channels.len(),
        checks[i].overdue(now),
        !channels[m].deleted,
        channels[m].check_id == checks[i].id,
    ensures
        has_outstanding(alerts_after_scan(checks, channels, alerts, now), checks[i].id, channels[m].id),
    decreases checks.len(),
{
    let after = alerts_after_scan(checks, channels, alerts, now);
    let rest = checks.drop_last();
    let before = alerts_after_scan(rest, channels, alerts, now);
    let id = checks[i].id;
    let channel = channels[m].id;
    if i < checks.len() - 1 {
        lemma_scan_serves_every_channel(rest, channels, alerts, now, i, m);
        let w = choose|w: int| 0 <= w < before.len() && (#[trigger] before[w]).outstanding_for(id, channel);
        assert(after[w] == before[w]);
    } else if wants_alert(channels[m], before, id) {
        let k = lemma_wanting_channel_served(channels, before, id, now, m);
        assert(after[before.len() + k] == raised_for_check(channels, before, id, now)[k]);
        assert(after[before.len() + k].outstanding_for(id, channel));
    } else {
        let w = choose|w: int| 0 <= w < before.len() && (#[trigger] before[w]).outstanding_for(id, channel);
        assert(after[w] == before[w]);
    }
}

/// Channels that want nothing get nothing.
pub proof fn lemma_nothing_wanted_nothing_raised(
    channels: Seq<NotificationView>,
    alerts: Seq<AlertEntry>,
    check_id: i64,
    now: i64,
)
    requires
        forall|m: int| 0 <= m < channels.len() ==> !wants_alert(#[trigger] channels[m], alerts, check_id),
    ensures
        raised_for_check(channels, alerts, check_id, now) == Seq::<AlertEntry>::empty(),
    decreases channels.len(),
{
    if channels.len() > 0 {
        let rest = channels.drop_last();
        assert forall|m: int| 0 <= m < rest.len() implies !wants_alert(#[trigger] rest[m], alerts, check_id) by {
            assert(rest[m] == channels[m]);
        }
        lemma_nothing_wanted_nothing_raised(rest, alerts, check_id, now);
        assert(!wants_alert(channels[channels.len() - 1], alerts, check_id));
    }
}

/// A detector tick raises nothing where every live channel of every lapsed
/// check already has an outstanding alert.
pub proof fn lemma_served_scan_raises_nothing(
    checks: Seq<CheckView>,
    channels: Seq<NotificationView>,
    alerts: Seq<AlertEntry>,
    now: i64,
)
    requires
        forall|i: int, m: int|
            0 <= i < checks.len() && 0 <= m < channels.len() && (#[trigger] checks[i]).overdue(now) && !(
            #[trigger] channels[m]).deleted && channels[m].check_id == checks[i].id ==> has_outstanding(
                alerts,
                checks[i].id,
                channels[m].id,
            ),
    ensures
        alerts_after_scan(checks, channels, alerts, now) == alerts,
    decreases checks.len(),
{
    if checks.len() > 0 {
        let rest = checks.drop_last();
        let last = checks.len() - 1;
        assert forall|i: int, m: int|
            0 <= i < rest.len() && 0 <= m < channels.len() && (#[trigger] rest[i]).overdue(now) && !(
            #[trigger] channels[m]).deleted && channels[m].check_id == rest[i].id implies has_outstanding(
            alerts,
            rest[i].id,
            channels[m].id,
        ) by {
            assert(rest[i] == checks[i]);
        }
        lemma_served_scan_raises_nothing(rest, channels, alerts, now);
        if checks[last].overdue(now) {
            assert forall|m: int| 0 <= m < channels.len() implies !wants_alert(
                #[trigger] channels[m],
                alerts,
                checks[last].id,
            ) by {
                if !channels[m].deleted && channels[m].check_id == checks[last].id {
                    assert(has_outstanding(alerts, checks[last].id, channels[m].id));
                }
            }
            lemma_nothing_wanted_nothing_raised(channels, alerts, checks[last].id, now);
            assert(alerts + Seq::<AlertEntry>::empty() =~= alerts);
        }
    }
}

/// Enqueueing is idempotent: a second detector tick, run on the tables
/// that the first one left, raises no alert, as long as it finds no lapse
/// that the first one did not find. In particular a second tick at the
/// same time raises nothing.
pub proof fn lemma_second_tick_raises_nothing(
    checks: Seq<CheckView>,
    channels: Seq<NotificationView>,
    alerts: Seq<AlertEntry>,
    now: i64,
    later: i64,
)
    requires
        forall|i: int| 0 <= i < checks.len() && (#[trigger] checks[i]).overdue(later) ==> checks[i].overdue(now),
    ensures
        alerts_after_scan(
            evaluated_table(checks, now),
            channels,
            alerts_after_scan(checks, channels, alerts, now),
            later,
        ) == alerts_after_scan(checks, channels, alerts, now),
{
    let first = alerts_after_scan(checks, channels, alerts, now);
    let table = evaluated_table(checks, now);
    assert forall|i: int, m: int|
        0 <= i < table.len() && 0 <= m < channels.len() && (#[trigger] table[i]).overdue(later) && !(
        #[trigger] channels[m]).deleted && channels[m].check_id == table[i].id implies has_outstanding(
        first,
        table[i].id,
        channels[m].id,
    ) by {
        assert(checks[i].overdue(later));
        lemma_scan_serves_every_channel(checks, channels, alerts, now, i, m);
    }
    lemma_served_scan_raises_nothing(table, channels, first, later);
}

/// Retries run out: an alert with at most `n` attempts left is, after
/// `n + 1` failed dispatches in a row, failed for good. Its budget is
/// empty, and no worker can claim it again.
pub proof fn lemma_retries_run_out(a: AlertEntry, n: nat, now: i64)
    requires
        a.retries_remaining <= n,
    ensures
        a.failed_times(n + 1, now).delivery_status == DeliveryStatus::Failed,
        a.failed_times(n + 1, now).retries_remaining == 0,
        a.failed_times(n + 1, now).finished_at == Some(now),
        !a.failed_times(n + 1, now).outstanding(),
        !a.failed_times(n + 1, now).claimable(),
    decreases n,
{
    lemma_failures_count_down(a, n + 1, now);
}

/// After `n` failed dispatches in a row, `n` attempts are gone from the
/// budget, or all of it.
pub proof fn lemma_failures_count_down(a: AlertEntry, n: nat, now: i64)
    ensures
        a.failed_times(n, now).retries_remaining == if a.retries_remaining <= n {
            if n == 0 {
                a.retries_remaining as int
            } else {
                0
            }
        } else {
            a.retries_remaining - n
        },
        n > 0 ==> a.failed_times(n, now).delivery_status == DeliveryStatus::Failed,
        n > 0 && a.retries_remaining <= n ==> a.failed_times(n, now).finished_at == Some(now),
        n > 0 && a.retries_remaining > n ==> a.failed_times(n, now).finished_at == a.finished_at,
        a.failed_times(n, now).id == a.id,
        a.failed_times(n, now).created_at == a.created_at,
        a.failed_times(n, now).check_status == a.check_status,
    decreases n,
{
    if n > 0 {
        lemma_failures_count_down(a, (n - 1) as nat, now);
    }
}

/// Retries run out in the queue too: an outstanding alert with at most `n`
/// attempts left is terminal after `n + 1` reports of failure, with an
/// empty budget, and every later report leaves it as it is.
pub proof fn lemma_reports_run_out(a: AlertEntry, n: nat, now: i64)
    requires
        a.outstanding(),
        a.retries_remaining <= n,
    ensures
        reported_failed(a, n + 1, now).delivery_status == DeliveryStatus::Failed,
        reported_failed(a, n + 1, now).retries_remaining == 0,
        !reported_failed(a, n + 1, now).outstanding(),
        forall|success: bool, later: i64|
            #[trigger] reported_failed(a, n + 1, now).settled(success, later) == reported_failed(a, n + 1, now),
    decreases n,
{
    lemma_reports_count_down(a, n + 1, now);
}

/// The entry after `n` reports of failure in a row, each at `now`.
pub open spec fn reported_failed(a: AlertEntry, n: nat, now: i64) -> AlertEntry
    decreases n,
{
    if n == 0 {
        a
    } else {
        reported_failed(a, (n - 1) as nat, now).settled(false, now)
    }
}

/// After `n` reports of failure, an alert that was outstanding has failed
/// as often as its budget allowed, and no more.
pub proof fn lemma_reports_count_down(a: AlertEntry, n: nat, now: i64)
    requires
        a.outstanding(),
    ensures
        n > 0 ==> reported_failed(a, n, now).delivery_status == DeliveryStatus::Failed,
        reported_failed(a, n, now).retries_remaining == if n == 0 {
            a.retries_remaining as int
        } else if a.retries_remaining <= n {
            0
        } else {
            a.retries_remaining - n
        },
        n > 0 && a.retries_remaining <= n ==> !reported_failed(a, n, now).outstanding(),
        n == 0 || a.retries_remaining > n ==> reported_failed(a, n, now).outstanding(),
    decreases n,
{
    if n > 0 {
        lemma_reports_count_down(a, (n - 1) as nat, now);
    }
}

/// The time of completion marks the end and nothing else: a reported
/// outcome sets it exactly where it makes the alert terminal.
pub proof fn lemma_completion_marks_the_end(a: AlertEntry, success: bool, now: i64)
    requires
        a.outstanding(),
    ensures
        !a.settled(success, now).outstanding() ==> a.settled(success, now).finished_at == Some(now),
        a.settled(success, now).outstanding() ==> a.settled(success, now).finished_at == a.finished_at,
{
}

/// A terminal alert is immutable: no reported outcome changes it.
pub proof fn lemma_terminal_is_immutable(a: AlertEntry, success: bool, now: i64)
    requires
        !a.outstanding(),
    ensures
        a.settled(success, now) == a,
{
}

/// No reported outcome changes the status of the check that an alert was
/// raised with, its check, its channel or its time of creation.
pub proof fn lemma_outcome_keeps_origin(a: AlertEntry, success: bool, now: i64)
    ensures
        a.settled(success, now).id == a.id,
        a.settled(success, now).check_id == a.check_id,
        a.settled(success, now).notification_id == a.notification_id,
        a.settled(success, now).check_status == a.check_status,
        a.settled(success, now).created_at == a.created_at,
        a.settled(success, now).outstanding() ==> a.outstanding(),
{
}

/// No double claim: while the first of two claims holds its locks, the
/// second takes none of the first one's entries, whoever the workers are
/// and whatever the limits. Within one claim no entry is taken twice.
pub proof fn lemma_claims_are_disjoint(
    start: Seq<AlertEntry>,
    between: Seq<AlertEntry>,
    end: Seq<AlertEntry>,
    first: Seq<int>,
    second: Seq<int>,
    first_worker: u64,
    second_worker: u64,
    first_limit: int,
    second_limit: int,
    channels: Seq<NotificationView>,
    checks: Seq<CheckView>,
)
    requires
        batch_claimed(start, between, first, first_worker, first_limit, channels, checks),
        batch_claimed(between, end, second, second_worker, second_limit, channels, checks),
    ensures
        forall|p: int, q: int| 0 <= p < first.len() && 0 <= q < second.len() ==> #[trigger] first[p] != #[trigger] second[q],
        forall|p: int, q: int| 0 <= p < q < first.len() ==> #[trigger] first[p] != #[trigger] first[q],
        forall|p: int, q: int| 0 <= p < q < second.len() ==> #[trigger] second[p] != #[trigger] second[q],
{
    assert forall|p: int, q: int| 0 <= p < first.len() && 0 <= q < second.len() implies #[trigger] first[p]
        != #[trigger] second[q] by {
        if first[p] == second[q] {
            let k = first[p];
            assert(first.contains(k));
            assert(between[k] == start[k].claimed(first_worker));
            assert(deliverable(between[second[q]], channels, checks));
        }
    }
}

/// A claim changes nothing but locks: every entry keeps its status, its
/// budget and its times.
pub proof fn lemma_claim_changes_only_locks(
    before: Seq<AlertEntry>,
    after: Seq<AlertEntry>,
    picked: Seq<int>,
    worker: u64,
    limit: int,
    channels: Seq<NotificationView>,
    checks: Seq<CheckView>,
    k: int,
)
    requires
        batch_claimed(before, after, picked, worker, limit, channels, checks),
        0 <= k < before.len(),
    ensures
        after[k] == (AlertEntry { claimed_by: after[k].claimed_by, ..before[k] }),
        picked.contains(k) ==> after[k].claimed_by == Some(worker) && !after[k].claimable(),
        !picked.contains(k) ==> after[k] == before[k],
{
}

/// Round trip: an alert that is raised, claimed and then delivered ends
/// as delivered, with a time of completion that is the time of the
/// delivery report and, where time does not run backwards, not before the
/// alert's creation.
pub proof fn lemma_round_trip(
    id: u64,
    check_id: i64,
    notification_id: i64,
    max_retries: i32,
    raised_at: i64,
    worker: u64,
    delivered_at: i64,
)
    requires
        raised_at <= delivered_at,
    ensures
        ({
            let raised = AlertEntry::raised(id, check_id, notification_id, max_retries, raised_at);
            let done = raised.claimed(worker).settled(true, delivered_at);
            &&& raised.claimable()
            &&& done.delivery_status == DeliveryStatus::Delivered
            &&& done.finished_at == Some(delivered_at)
            &&& done.finished_at->0 >= done.created_at
            &&& !done.outstanding()
        }),
{
}

/// Recording the outcomes of a batch neither adds nor removes an entry,
/// and leaves every entry as it is that no outcome names.
pub proof fn lemma_unreported_is_untouched(
    queue: Seq<AlertEntry>,
    outcomes: Seq<DispatchOutcomeView>,
    now: i64,
    k: int,
)
    requires
        0 <= k < queue.len(),
        forall|q: int| 0 <= q < outcomes.len() ==> (#[trigger] outcomes[q]).alert.id != k,
    ensures
        outcomes_recorded(queue, outcomes, now).len() == queue.len(),
        outcomes_recorded(queue, outcomes, now)[k] == queue[k],
    decreases outcomes.len(),
{
    if outcomes.len() > 0 {
        let rest = outcomes.drop_last();
        assert forall|q: int| 0 <= q < rest.len() implies (#[trigger] rest[q]).alert.id != k by {
            assert(rest[q] == outcomes[q]);
        }
        lemma_unreported_is_untouched(queue, rest, now, k);
        assert(outcomes[outcomes.len() - 1].alert.id != k);
    }
}

/// Round trip through the queue: an outstanding alert that a batch reports
/// once ends as its outcome says. Delivered, it is terminal with the time
/// of the report as its time of completion; failed, it has one attempt
/// less.
pub proof fn lemma_reported_once(queue: Seq<AlertEntry>, outcomes: Seq<DispatchOutcomeView>, now: i64, p: int)
    requires
        0 <= p < outcomes.len(),
        outcomes[p].alert.id < queue.len(),
        queue[outcomes[p].alert.id as int].outstanding(),
        forall|q: int| 0 <= q < outcomes.len() && q != p ==> (#[trigger] outcomes[q]).alert.id != outcomes[p].alert.id,
    ensures
        outcomes_recorded(queue, outcomes, now).len() == queue.len(),
        outcomes_recorded(queue, outcomes, now)[outcomes[p].alert.id as int] == queue[outcomes[p].alert.id as int].dispatched(
            outcomes[p].delivered,
            now,
        ),
        outcomes[p].delivered ==> {
            let done = outcomes_recorded(queue, outcomes, now)[outcomes[p].alert.id as int];
            &&& done.delivery_status == DeliveryStatus::Delivered
            &&& done.finished_at == Some(now)
            &&& !done.outstanding()
        },
    decreases outcomes.len(),
{
    let id = outcomes[p].alert.id as int;
    let rest = outcomes.drop_last();
    let last = outcomes.len() - 1;
    if p == last {
        assert forall|q: int| 0 <= q < rest.len() implies (#[trigger] rest[q]).alert.id != id by {
            assert(rest[q] == outcomes[q]);
        }
        lemma_unreported_is_untouched(queue, rest, now, id);
    } else {
        assert(rest[p] == outcomes[p]);
        assert forall|q: int| 0 <= q < rest.len() && q != p implies (#[trigger] rest[q]).alert.id != rest[p].alert.id by {
            assert(rest[q] == outcomes[q]);
        }
        lemma_reported_once(queue, rest, now, p);
        assert(outcomes[last].alert.id != id);
    }
}

} // verus!
