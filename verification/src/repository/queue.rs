//! The alert queue as a mathematical object: what the detector raises,
//! what a worker may claim, what a reported outcome changes, and the
//! invariant that all of this keeps.

use crate::check::CheckView;
use crate::notification::{
    AlertEntry, DispatchOutcome, DispatchOutcomeView, Notification, NotificationAlert,
    NotificationAlertView, NotificationView,
};
use crate::repository::check::{check_of, has_check};
use vstd::prelude::*;

verus! {

/// Mathematical values of a list of channels.
pub open spec fn channel_views(rows: Seq<Notification>) -> Seq<NotificationView> {
    Seq::new(rows.len(), |i: int| rows[i]@)
}

/// Some entry of `alerts` is outstanding for channel `notification_id` of
/// check `check_id`.
pub open spec fn has_outstanding(alerts: Seq<AlertEntry>, check_id: i64, notification_id: i64) -> bool {
    exists|k: int| 0 <= k < alerts.len() && (#[trigger] alerts[k]).outstanding_for(check_id, notification_id)
}

/// The detector owes channel `c` an alert for the outage of check
/// `check_id`: the channel is live, belongs to the check, and no entry of
/// `alerts` is outstanding for the pair.
pub open spec fn wants_alert(c: NotificationView, alerts: Seq<AlertEntry>, check_id: i64) -> bool {
    &&& !c.deleted
    &&& c.check_id == check_id
    &&& !has_outstanding(alerts, check_id, c.id)
}

/// The entries that the detector raises at `now` for the outage of check
/// `check_id`: one for each channel that wants one, in table order,
/// numbered on from the end of `alerts`.
pub open spec fn raised_for_check(
    channels: Seq<NotificationView>,
    alerts: Seq<AlertEntry>,
    check_id: i64,
    now: i64,
) -> Seq<AlertEntry>
    decreases channels.len(),
{
    if channels.len() == 0 {
        Seq::empty()
    } else {
        let earlier = raised_for_check(channels.drop_last(), alerts, check_id, now);
        let c = channels.last();
        if wants_alert(c, alerts, check_id) {
            earlier.push(
                AlertEntry::raised((alerts.len() + earlier.len()) as u64, check_id, c.id, c.max_retries, now),
            )
        } else {
            earlier
        }
    }
}

/// The positions of the channels that want an alert for the outage of
/// check `check_id`, in table order.
pub open spec fn wanting_positions(channels: Seq<NotificationView>, alerts: Seq<AlertEntry>, check_id: i64) -> Seq<
    int,
>
    decreases channels.len(),
{
    if channels.len() == 0 {
        Seq::empty()
    } else {
        let earlier = wanting_positions(channels.drop_last(), alerts, check_id);
        if wants_alert(channels.last(), alerts, check_id) {
            earlier.push(channels.len() - 1)
        } else {
            earlier
        }
    }
}

/// What is raised for a check is one fresh entry for each channel that
/// wants one, in the order of the channels.
pub proof fn lemma_raised_by_position(
    channels: Seq<NotificationView>,
    alerts: Seq<AlertEntry>,
    check_id: i64,
    now: i64,
)
    ensures
        raised_for_check(channels, alerts, check_id, now).len() == wanting_positions(channels, alerts, check_id).len(),
        forall|k: int|
            0 <= k < wanting_positions(channels, alerts, check_id).len() ==> {
                let m = #[trigger] wanting_positions(channels, alerts, check_id)[k];
                &&& 0 <= m < channels.len()
                &&& wants_alert(channels[m], alerts, check_id)
                &&& raised_for_check(channels, alerts, check_id, now)[k] == AlertEntry::raised(
                    (alerts.len() + k) as u64,
                    check_id,
                    channels[m].id,
                    channels[m].max_retries,
                    now,
                )
            },
    decreases channels.len(),
{
    if channels.len() > 0 {
        let rest = channels.drop_last();
        lemma_raised_by_position(rest, alerts, check_id, now);
        let w = wanting_positions(channels, alerts, check_id);
        let earlier = wanting_positions(rest, alerts, check_id);
        assert forall|k: int| 0 <= k < w.len() implies {
            let m = #[trigger] w[k];
            &&& 0 <= m < channels.len()
            &&& wants_alert(channels[m], alerts, check_id)
            &&& raised_for_check(channels, alerts, check_id, now)[k] == AlertEntry::raised(
                (alerts.len() + k) as u64,
                check_id,
                channels[m].id,
                channels[m].max_retries,
                now,
            )
        } by {
            if k < earlier.len() {
                assert(w[k] == earlier[k]);
                assert(rest[earlier[k]] == channels[earlier[k]]);
            }
        }
    }
}

/// Finds the channels that want an alert for the outage of check
/// `check_id`, given the channels of the store and the alerts that are in
/// its queue: the result holds their positions in `channels`, in order.
pub fn wanting_channels(channels: &Vec<Notification>, alerts: &Vec<AlertEntry>, check_id: i64) -> (r: Vec<usize>)
    ensures
        r@.len() == wanting_positions(channel_views(channels@), alerts@, check_id).len(),
        forall|k: int|
            0 <= k < r@.len() ==> #[trigger] r@[k] as int == wanting_positions(
                channel_views(channels@),
                alerts@,
                check_id,
            )[k],
{
    let ghost views = channel_views(channels@);
    let mut r: Vec<usize> = Vec::new();
    let n = channels.len();
    let mut j: usize = 0;
    while j < n
        invariant
            j <= n,
            n == channels.len(),
            views == channel_views(channels@),
            r@.len() == wanting_positions(views.take(j as int), alerts@, check_id).len(),
            forall|k: int|
                0 <= k < r@.len() ==> #[trigger] r@[k] as int == wanting_positions(
                    views.take(j as int),
                    alerts@,
                    check_id,
                )[k],
        decreases n - j,
    {
        assert(views.take(j as int + 1).drop_last() =~= views.take(j as int));
        assert(views.take(j as int + 1).last() == channels@[j as int]@);
        let c = &channels[j];
        if !c.deleted && c.check_id == check_id {
            let mut taken = false;
            let m = alerts.len();
            let mut k: usize = 0;
            while k < m && !taken
                invariant
                    k <= m,
                    m == alerts.len(),
                    taken ==> has_outstanding(alerts@, check_id, c.id),
                    !taken ==> forall|i: int| 0 <= i < k ==> !(#[trigger] alerts@[i]).outstanding_for(check_id, c.id),
                decreases m - k,
            {
                let a = &alerts[k];
                if a.is_outstanding() && a.check_id == check_id && a.notification_id == c.id {
                    taken = true;
                }
                k += 1;
            }
            if !taken {
                r.push(j);
            }
        }
        j += 1;
    }
    assert(views.take(n as int) =~= views);
    r
}

/// No two channels share an identifier or a UUID.
pub open spec fn channel_ids_unique(channels: Seq<NotificationView>) -> bool {
    forall|i: int, j: int|
        0 <= i < channels.len() && 0 <= j < channels.len() && i != j ==> {
            &&& (#[trigger] channels[i]).id != (#[trigger] channels[j]).id
            &&& channels[i].uuid != channels[j].uuid
        }
}

/// Each entry's identifier is its position in the queue.
pub open spec fn ids_are_positions(alerts: Seq<AlertEntry>) -> bool {
    forall|k: int| 0 <= k < alerts.len() ==> (#[trigger] alerts[k]).id == k
}

/// At most one entry is outstanding for any pair of check and channel.
pub open spec fn single_outstanding(alerts: Seq<AlertEntry>) -> bool {
    forall|i: int, j: int|
        0 <= i < alerts.len() && 0 <= j < alerts.len() && i != j && (#[trigger] alerts[i]).outstanding() && (
        #[trigger] alerts[j]).outstanding() ==> !(alerts[i].check_id == alerts[j].check_id
            && alerts[i].notification_id == alerts[j].notification_id)
}

/// The invariant of channels and queue together.
pub open spec fn queue_wf(channels: Seq<NotificationView>, alerts: Seq<AlertEntry>) -> bool {
    &&& channel_ids_unique(channels)
    &&& ids_are_positions(alerts)
    &&& single_outstanding(alerts)
}

/// Some row of `channels` has the identifier `id`.
pub open spec fn has_channel(channels: Seq<NotificationView>, id: i64) -> bool {
    exists|i: int| 0 <= i < channels.len() && (#[trigger] channels[i]).id == id
}

/// `i` is the first row of `channels` with the identifier `id`.
pub open spec fn is_first_channel(channels: Seq<NotificationView>, id: i64, i: int) -> bool {
    &&& 0 <= i < channels.len()
    &&& channels[i].id == id
    &&& forall|j: int| 0 <= j < i ==> (#[trigger] channels[j]).id != id
}

/// The first row of `channels` with the identifier `id`.
pub open spec fn channel_of(channels: Seq<NotificationView>, id: i64) -> NotificationView
    recommends
        has_channel(channels, id),
{
    channels[choose|i: int| is_first_channel(channels, id, i)]
}

/// A worker may take the entry `a` now: it is claimable, and its channel
/// and its check are on record.
pub open spec fn deliverable(a: AlertEntry, channels: Seq<NotificationView>, checks: Seq<CheckView>) -> bool {
    &&& a.claimable()
    &&& has_channel(channels, a.notification_id)
    &&& has_check(checks, a.check_id)
}

/// The entry `a` as the notifier sees it: joined with its channel, for
/// kind, destination and retry budget, and with its check, for UUID, name
/// and time of the last ping.
pub open spec fn dispatch_view(
    a: AlertEntry,
    channels: Seq<NotificationView>,
    checks: Seq<CheckView>,
) -> NotificationAlertView {
    let channel = channel_of(channels, a.notification_id);
    let check = check_of(checks, a.check_id);
    NotificationAlertView {
        id: a.id,
        check_uuid: check.uuid,
        notification_type: channel.notification_type,
        name: check.name,
        email: channel.email,
        url: channel.url,
        retries_remaining: a.retries_remaining,
        max_retries: channel.max_retries,
        last_ping_at: check.last_ping_at,
    }
}

/// Queue positions of the alerts of a batch.
pub open spec fn batch_positions(batch: Seq<NotificationAlert>) -> Seq<int> {
    Seq::new(batch.len(), |p: int| batch[p].id as int)
}

/// A worker's claim took the queue from `before` to `after`, and `picked`
/// holds the positions of the entries it took, in the order of the batch.
///
/// The batch holds at most `limit` entries, each deliverable before the
/// claim and none twice. Exactly these entries now carry the lock of
/// `worker`. The batch is oldest first, and an entry that was deliverable
/// and left behind is no older than any entry taken, and is left behind
/// only by a full batch.
pub open spec fn batch_claimed(
    before: Seq<AlertEntry>,
    after: Seq<AlertEntry>,
    picked: Seq<int>,
    worker: u64,
    limit: int,
    channels: Seq<NotificationView>,
    checks: Seq<CheckView>,
) -> bool {
    &&& after.len() == before.len()
    &&& picked.len() <= limit
    &&& forall|p: int|
        0 <= p < picked.len() ==> 0 <= #[trigger] picked[p] < before.len() && deliverable(
            before[picked[p]],
            channels,
            checks,
        )
    &&& forall|p: int, q: int| 0 <= p < q < picked.len() ==> #[trigger] picked[p] != #[trigger] picked[q]
    &&& forall|k: int|
        0 <= k < before.len() ==> #[trigger] after[k] == if picked.contains(k) {
            before[k].claimed(worker)
        } else {
            before[k]
        }
    &&& forall|p: int, q: int|
        0 <= p < q < picked.len() ==> before[#[trigger] picked[p]].created_at <= before[#[trigger] picked[q]].created_at
    &&& forall|k: int, p: int|
        0 <= k < before.len() && deliverable(#[trigger] before[k], channels, checks) && !picked.contains(k) && 0
            <= p < picked.len() ==> before[#[trigger] picked[p]].created_at <= before[k].created_at
    &&& forall|k: int|
        0 <= k < before.len() && deliverable(#[trigger] before[k], channels, checks) && !picked.contains(k)
            ==> picked.len() == limit
}

/// The queue after the outcome `success` of a dispatch of entry `id` was
/// recorded at `now`. An identifier that the queue does not hold changes
/// nothing.
pub open spec fn outcome_recorded(alerts: Seq<AlertEntry>, id: u64, success: bool, now: i64) -> Seq<
    AlertEntry,
> {
    if id < alerts.len() {
        alerts.update(id as int, alerts[id as int].settled(success, now))
    } else {
        alerts
    }
}

/// The queue after the outcomes of a batch were recorded at `now`, one
/// after the other.
pub open spec fn outcomes_recorded(alerts: Seq<AlertEntry>, outcomes: Seq<DispatchOutcomeView>, now: i64) -> Seq<
    AlertEntry,
>
    decreases outcomes.len(),
{
    if outcomes.len() == 0 {
        alerts
    } else {
        outcome_recorded(
            outcomes_recorded(alerts, outcomes.drop_last(), now),
            outcomes.last().alert.id,
            outcomes.last().delivered,
            now,
        )
    }
}

/// The queue after `worker` dropped every lock it held.
pub open spec fn released_by(alerts: Seq<AlertEntry>, worker: u64) -> Seq<AlertEntry> {
    Seq::new(
        alerts.len(),
        |k: int|
            if alerts[k].claimed_by == Some(worker) {
                alerts[k].released()
            } else {
                alerts[k]
            },
    )
}

/// The alerts of a batch that were delivered, in the order of the batch.
pub open spec fn delivered_of(outcomes: Seq<DispatchOutcomeView>) -> Seq<NotificationAlertView>
    decreases outcomes.len(),
{
    if outcomes.len() == 0 {
        Seq::empty()
    } else if outcomes.last().delivered {
        delivered_of(outcomes.drop_last()).push(outcomes.last().alert)
    } else {
        delivered_of(outcomes.drop_last())
    }
}

/// Mathematical values of a batch of alerts.
pub open spec fn alert_views(batch: Seq<NotificationAlert>) -> Seq<NotificationAlertView> {
    Seq::new(batch.len(), |p: int| batch[p]@)
}

/// Mathematical values of the outcomes of a batch.
pub open spec fn outcome_views(outcomes: Seq<DispatchOutcome>) -> Seq<DispatchOutcomeView> {
    Seq::new(outcomes.len(), |p: int| outcomes[p]@)
}

/// Recording an outcome keeps the queue's invariant: no entry becomes
/// outstanding by it.
pub proof fn lemma_recording_keeps_queue(
    channels: Seq<NotificationView>,
    alerts: Seq<AlertEntry>,
    id: u64,
    success: bool,
    now: i64,
)
    requires
        queue_wf(channels, alerts),
    ensures
        queue_wf(channels, outcome_recorded(alerts, id, success, now)),
{
    let after = outcome_recorded(alerts, id, success, now);
    assert forall|i: int, j: int|
        0 <= i < after.len() && 0 <= j < after.len() && i != j && (#[trigger] after[i]).outstanding() && (
        #[trigger] after[j]).outstanding() implies !(after[i].check_id == after[j].check_id
        && after[i].notification_id == after[j].notification_id) by {
        assert(alerts[i].outstanding() && alerts[j].outstanding());
    }
}

/// What the first `m` channels raise is the beginning of what all of them
/// raise.
pub proof fn lemma_raised_prefix(
    channels: Seq<NotificationView>,
    alerts: Seq<AlertEntry>,
    check_id: i64,
    now: i64,
    m: int,
)
    requires
        0 <= m <= channels.len(),
    ensures
        raised_for_check(channels.take(m), alerts, check_id, now).len() <= raised_for_check(
            channels,
            alerts,
            check_id,
            now,
        ).len(),
        raised_for_check(channels.take(m), alerts, check_id, now) == raised_for_check(
            channels,
            alerts,
            check_id,
            now,
        ).take(raised_for_check(channels.take(m), alerts, check_id, now).len() as int),
    decreases channels.len(),
{
    let all = raised_for_check(channels, alerts, check_id, now);
    if m == channels.len() {
        assert(channels.take(m) =~= channels);
        assert(all.take(all.len() as int) =~= all);
    } else {
        let rest = channels.drop_last();
        let earlier = raised_for_check(rest, alerts, check_id, now);
        let part = raised_for_check(channels.take(m), alerts, check_id, now);
        lemma_raised_prefix(rest, alerts, check_id, now, m);
        assert(rest.take(m) =~= channels.take(m));
        assert(part =~= all.take(part.len() as int));
    }
}

/// The entry at position `k` of what is raised belongs to a channel that
/// wants an alert; the result is that channel's position. The channels
/// before it raise exactly the `k` entries before the entry.
pub proof fn lemma_raised_entry(
    channels: Seq<NotificationView>,
    alerts: Seq<AlertEntry>,
    check_id: i64,
    now: i64,
    k: int,
) -> (m: int)
    requires
        0 <= k < raised_for_check(channels, alerts, check_id, now).len(),
    ensures
        0 <= m < channels.len(),
        wants_alert(channels[m], alerts, check_id),
        raised_for_check(channels.take(m), alerts, check_id, now).len() == k,
        raised_for_check(channels, alerts, check_id, now)[k] == AlertEntry::raised(
            (alerts.len() + k) as u64,
            check_id,
            channels[m].id,
            channels[m].max_retries,
            now,
        ),
    decreases channels.len(),
{
    let rest = channels.drop_last();
    let earlier = raised_for_check(rest, alerts, check_id, now);
    if k < earlier.len() {
        let m = lemma_raised_entry(rest, alerts, check_id, now, k);
        assert(rest.take(m) =~= channels.take(m));
        m
    } else {
        let m = channels.len() - 1;
        assert(channels.take(m) =~= rest);
        m
    }
}

/// A channel that wants an alert gets one: the result is the position of
/// its entry in what is raised.
pub proof fn lemma_wanting_channel_served(
    channels: Seq<NotificationView>,
    alerts: Seq<AlertEntry>,
    check_id: i64,
    now: i64,
    m: int,
) -> (k: int)
    requires
        0 <= m < channels.len(),
        wants_alert(channels[m], alerts, check_id),
    ensures
        0 <= k < raised_for_check(channels, alerts, check_id, now).len(),
        k == raised_for_check(channels.take(m), alerts, check_id, now).len(),
        raised_for_check(channels, alerts, check_id, now)[k] == AlertEntry::raised(
            (alerts.len() + k) as u64,
            check_id,
            channels[m].id,
            channels[m].max_retries,
            now,
        ),
{
    let upto = channels.take(m + 1);
    let before = raised_for_check(channels.take(m), alerts, check_id, now);
    let with = raised_for_check(upto, alerts, check_id, now);
    assert(upto.drop_last() =~= channels.take(m));
    assert(upto.last() == channels[m]);
    lemma_raised_prefix(channels, alerts, check_id, now, m + 1);
    let k = before.len() as int;
    assert(with[k] == raised_for_check(channels, alerts, check_id, now).take(with.len() as int)[k]);
    k
}

/// Raising the alerts of one check keeps the queue's invariant.
pub proof fn lemma_raising_keeps_queue(
    channels: Seq<NotificationView>,
    alerts: Seq<AlertEntry>,
    check_id: i64,
    now: i64,
)
    requires
        queue_wf(channels, alerts),
        alerts.len() + raised_for_check(channels, alerts, check_id, now).len() <= u64::MAX,
    ensures
        queue_wf(channels, alerts + raised_for_check(channels, alerts, check_id, now)),
{
    let fresh = raised_for_check(channels, alerts, check_id, now);
    let after = alerts + fresh;
    let n = alerts.len() as int;
    assert forall|k: int| 0 <= k < after.len() implies (#[trigger] after[k]).id == k by {
        if k >= n {
            let m = lemma_raised_entry(channels, alerts, check_id, now, k - n);
        }
    }
    assert forall|i: int, j: int|
        0 <= i < after.len() && 0 <= j < after.len() && i != j && (#[trigger] after[i]).outstanding() && (
        #[trigger] after[j]).outstanding() implies !(after[i].check_id == after[j].check_id
        && after[i].notification_id == after[j].notification_id) by {
        if i < n && j < n {
        } else if i >= n && j >= n {
            let mi = lemma_raised_entry(channels, alerts, check_id, now, i - n);
            let mj = lemma_raised_entry(channels, alerts, check_id, now, j - n);
            assert(mi != mj);
        } else {
            let (o, f) = if i < n {
                (i, j)
            } else {
                (j, i)
            };
            let m = lemma_raised_entry(channels, alerts, check_id, now, f - n);
            if alerts[o].check_id == check_id && alerts[o].notification_id == channels[m].id {
                assert(alerts[o].outstanding_for(check_id, channels[m].id));
            }
        }
    }
}

} // verus!
