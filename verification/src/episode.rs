//! What holds of the monitor over one tick and over runs of ticks.

use vstd::prelude::*;
use crate::config::{interval_at, NotificationPolicy};
use crate::door::{DoorStatus, SampleError};
use crate::monitor::{elapsed_between, poll_events, poll_state, MonitorState, NotificationEvent};

verus! {

/// Whether `event` reports a door that is open for too long.
pub open spec fn is_report(event: NotificationEvent) -> bool {
    event is OpenTooLong
}

/// How many of `events` report a door that is open for too long.
pub open spec fn reports_in(events: Seq<NotificationEvent>) -> nat
    decreases events.len(),
{
    if events.len() == 0 {
        0
    } else {
        reports_in(events.drop_last()) + if is_report(events.last()) {
            1nat
        } else {
            0nat
        }
    }
}

/// The state after the ticks `ticks`, each a sample (`true` for closed) and
/// the time at which it was taken, in order.
pub open spec fn run_state(state: MonitorState, policy: NotificationPolicy, ticks: Seq<(bool, u64)>)
    -> MonitorState
    decreases ticks.len(),
{
    if ticks.len() == 0 {
        state
    } else {
        run_state(state, policy, ticks.drop_last()).next(ticks.last().0, policy, ticks.last().1)
    }
}

/// All notifications of the ticks `ticks`, in order.
pub open spec fn run_events(state: MonitorState, policy: NotificationPolicy, ticks: Seq<(bool, u64)>)
    -> Seq<NotificationEvent>
    decreases ticks.len(),
{
    if ticks.len() == 0 {
        Seq::empty()
    } else {
        run_events(state, policy, ticks.drop_last()) + run_state(
            state,
            policy,
            ticks.drop_last(),
        ).events(ticks.last().0, policy, ticks.last().1)
    }
}

/// `1` where the episode is on record as reported, else `0`.
pub open spec fn flag(state: MonitorState) -> nat {
    if state.sms_sent {
        1
    } else {
        0
    }
}

/// The reports in two runs of events add up.
pub proof fn lemma_reports_in_concat(a: Seq<NotificationEvent>, b: Seq<NotificationEvent>)
    ensures
        reports_in(a + b) == reports_in(a) + reports_in(b),
    decreases b.len(),
{
    if b.len() == 0 {
        assert(a + b =~= a);
    } else {
        lemma_reports_in_concat(a, b.drop_last());
        assert((a + b).drop_last() =~= a + b.drop_last());
        assert((a + b).last() == b.last());
    }
}

/// Every tick keeps a state that the monitor can reach within those that it
/// can reach.
pub proof fn lemma_tick_keeps_wf(
    state: MonitorState,
    door_closed: bool,
    policy: NotificationPolicy,
    now: u64,
)
    requires
        state.wf(),
    ensures
        state.next(door_closed, policy, now).wf(),
{
}

/// From the state before the first sample, every run of ticks ends in a
/// state that the monitor can reach.
pub proof fn lemma_run_keeps_wf(policy: NotificationPolicy, ticks: Seq<(bool, u64)>)
    ensures
        run_state(MonitorState::initial(), policy, ticks).wf(),
    decreases ticks.len(),
{
    if ticks.len() > 0 {
        lemma_run_keeps_wf(policy, ticks.drop_last());
        lemma_tick_keeps_wf(
            run_state(MonitorState::initial(), policy, ticks.drop_last()),
            ticks.last().0,
            policy,
            ticks.last().1,
        );
    }
}

/// The first sample is answered with exactly one notification, the door's
/// state at startup. It sets the time of closing and no time of opening if
/// the door is closed, the reverse if it is open, and leaves the record of
/// reports alone.
pub proof fn lemma_first_sample(
    state: MonitorState,
    door_closed: bool,
    policy: NotificationPolicy,
    now: u64,
)
    requires
        state.last_door_state.is_none(),
    ensures
        state.events(door_closed, policy, now) == seq![
            NotificationEvent::StartupStatus { closed: door_closed },
        ],
        state.next(door_closed, policy, now).last_door_state == Some(door_closed),
        door_closed ==> state.next(door_closed, policy, now).door_closed_time == Some(now)
            && state.next(door_closed, policy, now).door_opened_time.is_none(),
        !door_closed ==> state.next(door_closed, policy, now).door_opened_time == Some(now)
            && state.next(door_closed, policy, now).door_closed_time.is_none(),
        state.next(door_closed, policy, now).sms_sent == state.sms_sent,
        state.next(door_closed, policy, now).sms_backoff_index == state.sms_backoff_index,
        state.next(door_closed, policy, now).last_sms_time == state.last_sms_time,
{
}

/// When a closed door is found open, the tick's first notification is that
/// the door opened, whatever the policy and its threshold; it is the only one
/// of its kind, and anything after it is a report of a door open too long.
/// The time of opening is the time of the sample.
pub proof fn lemma_opening_is_told_at_once(state: MonitorState, policy: NotificationPolicy, now: u64)
    requires
        state.last_door_state == Some(true),
    ensures
        state.events(false, policy, now).len() >= 1,
        state.events(false, policy, now)[0] == NotificationEvent::DoorOpened,
        forall|i: int|
            1 <= i < state.events(false, policy, now).len() ==> is_report(
                #[trigger] state.events(false, policy, now)[i],
            ),
        state.next(false, policy, now).door_opened_time == Some(now),
        state.next(false, policy, now).door_closed_time.is_none(),
        state.next(false, policy, now).last_door_state == Some(false),
{
}

/// When an open door is found closed, the tick's only notification tells for
/// how long the door was open, and the record of reports is reset, whether or
/// not a report had been sent.
pub proof fn lemma_closing_is_told_and_resets(
    state: MonitorState,
    policy: NotificationPolicy,
    now: u64,
)
    requires
        state.wf(),
        state.last_door_state == Some(false),
    ensures
        state.events(true, policy, now) == seq![
            NotificationEvent::DoorClosed {
                total_open: elapsed_between(state.door_opened_time.unwrap(), now),
            },
        ],
        state.next(true, policy, now).quiet(),
        state.next(true, policy, now).door_opened_time.is_none(),
        state.next(true, policy, now).door_closed_time == Some(now),
        state.next(true, policy, now).last_door_state == Some(true),
{
}

/// With progressive reminders, an open door that was reported is not reported
/// again before the interval that belongs to the count of its reports has
/// passed, and is reported again at the first tick after that.
pub proof fn lemma_reminder_waits_for_interval(
    state: MonitorState,
    policy: NotificationPolicy,
    now: u64,
)
    requires
        state.wf(),
        state.last_door_state == Some(false),
        state.sms_sent,
        policy.sms_backoff,
        elapsed_between(state.door_opened_time.unwrap(), now) >= policy.warning_threshold,
    ensures
        elapsed_between(state.last_sms_time.unwrap(), now) < interval_at(
            policy.sms_intervals@,
            state.sms_backoff_index,
        ) ==> state.events(false, policy, now) == Seq::<NotificationEvent>::empty() && state.next(
            false,
            policy,
            now,
        ) == state,
        elapsed_between(state.last_sms_time.unwrap(), now) >= interval_at(
            policy.sms_intervals@,
            state.sms_backoff_index,
        ) ==> state.events(false, policy, now) == seq![
            NotificationEvent::OpenTooLong {
                time_open: elapsed_between(state.door_opened_time.unwrap(), now),
                backoff_index: state.sms_backoff_index,
                reminder: true,
            },
        ] && state.next(false, policy, now) == state.reported(now),
{
}

/// With a single alert, one tick on an open door reports it exactly if the
/// tick sets the flag.
pub proof fn lemma_single_alert_tick(state: MonitorState, policy: NotificationPolicy, now: u64)
    requires
        !policy.sms_backoff,
    ensures
        reports_in(state.events(false, policy, now)) + flag(state) == flag(
            state.next(false, policy, now),
        ),
{
    let events = state.events(false, policy, now);
    reveal_with_fuel(reports_in, 3);
    if events.len() == 1 {
        assert(events.drop_last() =~= Seq::empty());
    } else if events.len() == 2 {
        assert(events.drop_last().drop_last() =~= Seq::empty());
    }
}

/// With a single alert, an open episode is reported at most once, however
/// many ticks it lasts and whatever their times: over any run of samples that
/// show the door open, the reports sent are exactly the change of the flag.
pub proof fn lemma_single_alert_once_per_episode(
    state: MonitorState,
    policy: NotificationPolicy,
    ticks: Seq<(bool, u64)>,
)
    requires
        !policy.sms_backoff,
        forall|i: int| 0 <= i < ticks.len() ==> !(#[trigger] ticks[i]).0,
    ensures
        reports_in(run_events(state, policy, ticks)) + flag(state) == flag(
            run_state(state, policy, ticks),
        ),
        reports_in(run_events(state, policy, ticks)) <= 1,
    decreases ticks.len(),
{
    if ticks.len() > 0 {
        let before = ticks.drop_last();
        lemma_single_alert_once_per_episode(state, policy, before);
        let middle = run_state(state, policy, before);
        assert(!ticks.last().0);
        lemma_single_alert_tick(middle, policy, ticks.last().1);
        lemma_reports_in_concat(
            run_events(state, policy, before),
            middle.events(false, policy, ticks.last().1),
        );
    }
}

/// One tick on an open door sends at most one report, and the count of
/// reports on record grows by what it sends.
pub proof fn lemma_tick_counts_report(state: MonitorState, policy: NotificationPolicy, now: u64)
    requires
        state.sms_backoff_index < usize::MAX,
    ensures
        reports_in(state.events(false, policy, now)) <= 1,
        state.next(false, policy, now).sms_backoff_index == state.sms_backoff_index + reports_in(
            state.events(false, policy, now),
        ),
{
    let events = state.events(false, policy, now);
    reveal_with_fuel(reports_in, 3);
    if events.len() == 1 {
        assert(events.drop_last() =~= Seq::empty());
    } else if events.len() == 2 {
        assert(events.drop_last().drop_last() =~= Seq::empty());
    }
}

/// While the door stays open the count on record is the count of reports
/// sent: over any run of samples that show the door open, it grows by exactly
/// the reports of the run, under either policy.
pub proof fn lemma_index_counts_reports(
    state: MonitorState,
    policy: NotificationPolicy,
    ticks: Seq<(bool, u64)>,
)
    requires
        state.sms_backoff_index + ticks.len() <= usize::MAX,
        forall|i: int| 0 <= i < ticks.len() ==> !(#[trigger] ticks[i]).0,
    ensures
        reports_in(run_events(state, policy, ticks)) <= ticks.len(),
        run_state(state, policy, ticks).sms_backoff_index == state.sms_backoff_index + reports_in(
            run_events(state, policy, ticks),
        ),
    decreases ticks.len(),
{
    if ticks.len() > 0 {
        let before = ticks.drop_last();
        lemma_index_counts_reports(state, policy, before);
        let middle = run_state(state, policy, before);
        assert(!ticks.last().0);
        lemma_tick_counts_report(middle, policy, ticks.last().1);
        lemma_reports_in_concat(
            run_events(state, policy, before),
            middle.events(false, policy, ticks.last().1),
        );
    }
}

/// A failed poll changes no field of the state and sends nothing, whatever
/// the failure, and the next poll is answered as if the failed one had not
/// taken place.
pub proof fn lemma_failed_poll_is_skipped(
    state: MonitorState,
    policy: NotificationPolicy,
    failure: SampleError,
    failed_at: u64,
    outcome: Result<DoorStatus, SampleError>,
    now: u64,
)
    ensures
        poll_state(state, Err(failure), policy, failed_at) == state,
        poll_events(state, Err(failure), policy, failed_at) == Seq::<NotificationEvent>::empty(),
        poll_state(poll_state(state, Err(failure), policy, failed_at), outcome, policy, now)
            == poll_state(state, outcome, policy, now),
        poll_events(poll_state(state, Err(failure), policy, failed_at), outcome, policy, now)
            == poll_events(state, outcome, policy, now),
{
}

} // verus!
