//! The monitor's state machine: from one door sample per tick to the
//! notifications that are due, with the bookkeeping of the open episode.

use vstd::prelude::*;
use crate::config::{interval_at, NotificationPolicy};
use crate::door::{DoorStatus, SampleError};

verus! {

/// What the monitor has to tell.
#[derive(Debug, Clone, Copy, PartialEq, Eq)]
pub enum NotificationEvent {
    /// The first sample arrived; `closed` is what it showed.
    StartupStatus { closed: bool },
    /// The door went from closed to open.
    DoorOpened,
    /// The door went from open to closed after `total_open` seconds.
    DoorClosed { total_open: u64 },
    /// The door has been open for `time_open` seconds, which is too long.
    /// `backoff_index` counts the notifications of this episode sent before
    /// this one; `reminder` tells a repeat from the first alert.
    OpenTooLong { time_open: u64, backoff_index: usize, reminder: bool },
}

/// What the monitor remembers between ticks. Times are whole seconds on a
/// clock that does not run backwards.
#[derive(Debug, Clone, Copy, PartialEq, Eq)]
pub struct MonitorState {
    /// When the door opened; set while it is open.
    pub door_opened_time: Option<u64>,
    /// When the door closed; set while it is closed.
    pub door_closed_time: Option<u64>,
    /// The last sample: `Some(true)` for closed, `None` before the first.
    pub last_door_state: Option<bool>,
    /// Whether this open episode has been reported as too long.
    pub sms_sent: bool,
    /// How many such reports this open episode has had.
    pub sms_backoff_index: usize,
    /// When the latest of them was sent.
    pub last_sms_time: Option<u64>,
}

/// The seconds from `since` to `now`; none if `now` lies before `since`.
pub open spec fn elapsed_between(since: u64, now: u64) -> u64 {
    if now >= since {
        (now - since) as u64
    } else {
        0
    }
}

/// The seconds from `since` to `now`; none if `now` lies before `since`.
pub fn elapsed(since: u64, now: u64) -> (seconds: u64)
    ensures
        seconds == elapsed_between(since, now),
{
    if now >= since {
        now - since
    } else {
        0
    }
}

impl MonitorState {
    /// The state before the first sample.
    pub open spec fn initial() -> MonitorState {
        MonitorState {
            door_opened_time: None,
            door_closed_time: None,
            last_door_state: None,
            sms_sent: false,
            sms_backoff_index: 0,
            last_sms_time: None,
        }
    }

    /// No report of this episode is on record.
    pub open spec fn quiet(self) -> bool {
        !self.sms_sent && self.sms_backoff_index == 0 && self.last_sms_time.is_none()
    }

    /// The state is one that the monitor itself can reach: the time of
    /// opening is set exactly while the door is open and that of closing
    /// exactly while it is closed, reports are on record only while the door
    /// is open, a counted report implies the flag, and the flag implies the
    /// time of the latest report.
    pub open spec fn wf(self) -> bool {
        &&& match self.last_door_state {
            None => self.door_opened_time.is_none() && self.door_closed_time.is_none()
                && self.quiet(),
            Some(true) => self.door_opened_time.is_none() && self.door_closed_time.is_some()
                && self.quiet(),
            Some(false) => self.door_opened_time.is_some() && self.door_closed_time.is_none(),
        }
        &&& (self.sms_backoff_index > 0 ==> self.sms_sent)
        &&& (self.sms_sent ==> self.last_sms_time.is_some())
    }

    /// The state with the episode's reports forgotten.
    pub open spec fn reset(self) -> MonitorState {
        MonitorState { sms_sent: false, sms_backoff_index: 0, last_sms_time: None, ..self }
    }

    /// The state after a report sent at `now`.
    pub open spec fn reported(self, now: u64) -> MonitorState
        recommends
            self.sms_backoff_index < usize::MAX,
    {
        MonitorState {
            sms_sent: true,
            sms_backoff_index: (self.sms_backoff_index + 1) as usize,
            last_sms_time: Some(now),
            ..self
        }
    }

    /// The state after the first sample, taken at `now`.
    pub open spec fn started(self, door_closed: bool, now: u64) -> MonitorState {
        MonitorState {
            door_opened_time: if door_closed { None } else { Some(now) },
            door_closed_time: if door_closed { Some(now) } else { None },
            last_door_state: Some(door_closed),
            ..self
        }
    }

    /// The times and the record of reports after the door changed to
    /// `door_closed` at `now`; the last sample is not touched.
    pub open spec fn changed(self, door_closed: bool, now: u64) -> MonitorState {
        if door_closed {
            MonitorState { door_opened_time: None, door_closed_time: Some(now), ..self.reset() }
        } else {
            MonitorState { door_opened_time: Some(now), door_closed_time: None, ..self }
        }
    }

    /// What a change to `door_closed` at `now` has to tell: that the door
    /// opened, or for how long it was open, where the time of opening is
    /// known.
    pub open spec fn change_event(self, door_closed: bool, now: u64) -> Option<NotificationEvent> {
        if door_closed {
            match self.door_opened_time {
                Some(opened) => Some(
                    NotificationEvent::DoorClosed { total_open: elapsed_between(opened, now) },
                ),
                None => None,
            }
        } else {
            Some(NotificationEvent::DoorOpened)
        }
    }

    /// Whether, with progressive reminders, a report is due at `now`: at
    /// once if none was sent in this episode; else when the interval that
    /// belongs to the count of reports has passed since the latest; never
    /// where the flag is set and the time of the latest report is missing.
    pub open spec fn backoff_due(self, intervals: Seq<u64>, now: u64) -> bool {
        if !self.sms_sent {
            true
        } else {
            match self.last_sms_time {
                Some(last) => elapsed_between(last, now) >= interval_at(
                    intervals,
                    self.sms_backoff_index,
                ),
                None => false,
            }
        }
    }

    /// Whether a report is due at `now` under `policy`: as `backoff_due`
    /// with progressive reminders; with a single alert, only while none was
    /// sent.
    pub open spec fn due(self, policy: NotificationPolicy, now: u64) -> bool {
        if policy.sms_backoff {
            self.backoff_due(policy.sms_intervals@, now)
        } else {
            !self.sms_sent
        }
    }

    /// The report that is sent where one is due after `time_open` seconds.
    pub open spec fn report(self, time_open: u64) -> NotificationEvent {
        NotificationEvent::OpenTooLong {
            time_open,
            backoff_index: self.sms_backoff_index,
            reminder: self.sms_sent,
        }
    }

    /// Whether the door is on record as open long enough at `now` for
    /// `policy` to report it.
    pub open spec fn reports_at(self, policy: NotificationPolicy, now: u64) -> bool {
        match self.door_opened_time {
            Some(opened) => elapsed_between(opened, now) >= policy.warning_threshold && self.due(
                policy,
                now,
            ),
            None => false,
        }
    }

    /// The state after the check of an open door at `now`.
    pub open spec fn checked(self, policy: NotificationPolicy, now: u64) -> MonitorState {
        if self.reports_at(policy, now) {
            self.reported(now)
        } else {
            self
        }
    }

    /// The report, if any, that the check of an open door at `now` sends.
    pub open spec fn check_event(self, policy: NotificationPolicy, now: u64) -> Option<
        NotificationEvent,
    > {
        if self.reports_at(policy, now) {
            Some(self.report(elapsed_between(self.door_opened_time.unwrap(), now)))
        } else {
            None
        }
    }

    /// The state after the sample `door_closed` taken at `now`, before the
    /// check of an open door: the first sample starts the record, a changed
    /// one moves the times, an unchanged one leaves all as it is.
    pub open spec fn sampled(self, door_closed: bool, now: u64) -> MonitorState {
        if self.last_door_state.is_none() {
            self.started(door_closed, now)
        } else if self.last_door_state != Some(door_closed) {
            MonitorState { last_door_state: Some(door_closed), ..self.changed(door_closed, now) }
        } else {
            self
        }
    }

    /// Whether the sample `door_closed` is followed by the check of an open
    /// door: the door is open and this is not the first sample.
    pub open spec fn checks_after(self, door_closed: bool) -> bool {
        self.last_door_state.is_some() && !door_closed
    }

    /// The state after one tick with the sample `door_closed` taken at `now`.
    pub open spec fn next(self, door_closed: bool, policy: NotificationPolicy, now: u64)
        -> MonitorState {
        if self.checks_after(door_closed) {
            self.sampled(door_closed, now).checked(policy, now)
        } else {
            self.sampled(door_closed, now)
        }
    }

    /// What the sample itself has to tell, before the check of an open door.
    pub open spec fn sample_events(self, door_closed: bool, now: u64) -> Seq<NotificationEvent> {
        if self.last_door_state.is_none() {
            seq![NotificationEvent::StartupStatus { closed: door_closed }]
        } else if self.last_door_state != Some(door_closed) {
            match self.change_event(door_closed, now) {
                Some(event) => seq![event],
                None => Seq::empty(),
            }
        } else {
            Seq::empty()
        }
    }

    /// The notifications of one tick with the sample `door_closed` taken at
    /// `now`, in the order in which they are sent.
    pub open spec fn events(self, door_closed: bool, policy: NotificationPolicy, now: u64) -> Seq<
        NotificationEvent,
    > {
        if self.checks_after(door_closed) {
            match self.sampled(door_closed, now).check_event(policy, now) {
                Some(event) => self.sample_events(door_closed, now).push(event),
                None => self.sample_events(door_closed, now),
            }
        } else {
            self.sample_events(door_closed, now)
        }
    }

    /// The state before the first sample: nothing known, nothing sent.
    pub fn new() -> (state: Self)
        ensures
            state == Self::initial(),
            state.wf(),
    {
        MonitorState {
            door_opened_time: None,
            door_closed_time: None,
            last_door_state: None,
            sms_sent: false,
            sms_backoff_index: 0,
            last_sms_time: None,
        }
    }

    /// Forgets the reports of the open episode.
    pub fn reset_sms_state(&mut self)
        ensures
            *final(self) == old(self).reset(),
            final(self).quiet(),
    {
        self.sms_sent = false;
        self.sms_backoff_index = 0;
        self.last_sms_time = None;
    }

    /// Whether a report is due at `now` under `policy`.
    pub fn notification_due(&self, policy: &NotificationPolicy, now: u64) -> (due: bool)
        ensures
            due == self.due(*policy, now),
    {
        if !self.sms_sent {
            true
        } else if policy.sms_backoff {
            match self.last_sms_time {
                Some(last) => elapsed(last, now) >= policy.interval_for(self.sms_backoff_index),
                None => false,
            }
        } else {
            false
        }
    }
}

/// The monitor: the state and the transitions on it.
#[derive(Debug, Clone, Copy, PartialEq, Eq)]
pub struct DoorMonitor {
    pub state: MonitorState,
}

impl DoorMonitor {
    /// A monitor that has seen no sample yet.
    pub fn new() -> (monitor: Self)
        ensures
            monitor.state == MonitorState::initial(),
            monitor.state.wf(),
    {
        DoorMonitor { state: MonitorState::new() }
    }

    /// Records a report sent at `now` after `time_open` seconds and returns
    /// it. The count of reports must have room for one more.
    fn record_report(&mut self, time_open: u64, now: u64) -> (event: NotificationEvent)
        requires
            old(self).state.sms_backoff_index < usize::MAX,
        ensures
            event == old(self).state.report(time_open),
            final(self).state == old(self).state.reported(now),
    {
        let event = NotificationEvent::OpenTooLong {
            time_open,
            backoff_index: self.state.sms_backoff_index,
            reminder: self.state.sms_sent,
        };
        self.state.sms_sent = true;
        self.state.last_sms_time = Some(now);
        self.state.sms_backoff_index = self.state.sms_backoff_index + 1;
        event
    }

    /// Progressive reminders for a door open for `time_open` seconds: sends a
    /// report and records it if one is due at `now`, else does nothing.
    pub fn handle_sms_with_backoff(
        &mut self,
        policy: &NotificationPolicy,
        time_open: u64,
        now: u64,
    ) -> (event: Option<NotificationEvent>)
        requires
            old(self).state.sms_backoff_index < usize::MAX,
        ensures
            old(self).state.backoff_due(policy.sms_intervals@, now) ==> event == Some(
                old(self).state.report(time_open),
            ) && final(self).state == old(self).state.reported(now),
            !old(self).state.backoff_due(policy.sms_intervals@, now) ==> event.is_none() && final(self).state == old(self).state,
    {
        let should_send = if !self.state.sms_sent {
            true
        } else {
            match self.state.last_sms_time {
                Some(last) => elapsed(last, now) >= policy.interval_for(
                    self.state.sms_backoff_index,
                ),
                None => false,
            }
        };
        if should_send {
            Some(self.record_report(time_open, now))
        } else {
            None
        }
    }

    /// A single alert for a door open for `time_open` seconds: sends the
    /// report and records it if none was sent in this episode, else does
    /// nothing.
    pub fn handle_single_sms(&mut self, time_open: u64, now: u64) -> (event: Option<
        NotificationEvent,
    >)
        requires
            old(self).state.sms_backoff_index < usize::MAX,
        ensures
            !old(self).state.sms_sent ==> event == Some(old(self).state.report(time_open)) && final(self).state == old(self).state.reported(now),
            old(self).state.sms_sent ==> event.is_none() && final(self).state == old(self).state,
    {
        if !self.state.sms_sent {
            Some(self.record_report(time_open, now))
        } else {
            None
        }
    }

    /// The check of an open door at `now`: where the door is on record as
    /// open for at least the policy's threshold and a report is due, sends
    /// and records it.
    pub fn handle_door_open_too_long(&mut self, policy: &NotificationPolicy, now: u64) -> (event:
        Option<NotificationEvent>)
        requires
            old(self).state.sms_backoff_index < usize::MAX,
        ensures
            final(self).state == old(self).state.checked(*policy, now),
            event == old(self).state.check_event(*policy, now),
    {
        match self.state.door_opened_time {
            Some(opened) => {
                let time_open = elapsed(opened, now);
                if time_open >= policy.warning_threshold {
                    if policy.sms_backoff {
                        self.handle_sms_with_backoff(policy, time_open, now)
                    } else {
                        self.handle_single_sms(time_open, now)
                    }
                } else {
                    None
                }
            },
            None => None,
        }
    }

    /// The door changed to `door_closed` at `now`: tells that it opened, or
    /// for how long it was open, and moves the times; on closing the record
    /// of reports is reset. The last sample is left to the caller.
    pub fn handle_door_state_change(&mut self, door_closed: bool, now: u64) -> (event: Option<
        NotificationEvent,
    >)
        ensures
            final(self).state == old(self).state.changed(door_closed, now),
            event == old(self).state.change_event(door_closed, now),
    {
        if door_closed {
            let event = match self.state.door_opened_time {
                Some(opened) => Some(
                    NotificationEvent::DoorClosed { total_open: elapsed(opened, now) },
                ),
                None => None,
            };
            self.state.door_opened_time = None;
            self.state.door_closed_time = Some(now);
            self.state.reset_sms_state();
            event
        } else {
            self.state.door_opened_time = Some(now);
            self.state.door_closed_time = None;
            Some(NotificationEvent::DoorOpened)
        }
    }

    /// One tick: takes the sample `door_status`, read at `now`, and returns
    /// the notifications to send, in order. The first sample only starts the
    /// record and reports the door's state. A changed sample tells of the
    /// change at once. While the door is open, from the second sample on, the
    /// check of an open door follows. The count of reports must have room
    /// for one more.
    pub fn handle_door_status(
        &mut self,
        door_status: &DoorStatus,
        policy: &NotificationPolicy,
        now: u64,
    ) -> (events: Vec<NotificationEvent>)
        requires
            old(self).state.sms_backoff_index < usize::MAX,
        ensures
            final(self).state == old(self).state.next(door_status.state, *policy, now),
            events@ == old(self).state.events(door_status.state, *policy, now),
            old(self).state.wf() ==> final(self).state.wf(),
    {
        let door_closed = door_status.state;
        let mut events: Vec<NotificationEvent> = Vec::new();
        if self.state.last_door_state.is_none() {
            if door_closed {
                self.state.door_closed_time = Some(now);
                self.state.door_opened_time = None;
            } else {
                self.state.door_opened_time = Some(now);
                self.state.door_closed_time = None;
            }
            self.state.last_door_state = Some(door_closed);
            events.push(NotificationEvent::StartupStatus { closed: door_closed });
            return events;
        }
        let changed = match self.state.last_door_state {
            Some(last) => last != door_closed,
            None => true,
        };
        if changed {
            match self.handle_door_state_change(door_closed, now) {
                Some(event) => {
                    events.push(event);
                },
                None => {},
            }
            self.state.last_door_state = Some(door_closed);
        }
        if !door_closed {
            match self.handle_door_open_too_long(policy, now) {
                Some(event) => {
                    events.push(event);
                },
                None => {},
            }
        }
        events
    }

    /// One turn of the monitoring loop: a failed poll changes nothing and
    /// sends nothing; a reading is one tick of the monitor.
    pub fn on_poll(&mut self, outcome: &Result<DoorStatus, SampleError>, policy: &NotificationPolicy, now: u64) -> (events:
        Vec<NotificationEvent>)
        requires
            old(self).state.sms_backoff_index < usize::MAX,
        ensures
            final(self).state == poll_state(old(self).state, *outcome, *policy, now),
            events@ == poll_events(old(self).state, *outcome, *policy, now),
            old(self).state.wf() ==> final(self).state.wf(),
    {
        match outcome {
            Ok(door_status) => self.handle_door_status(door_status, policy, now),
            Err(_) => Vec::new(),
        }
    }
}

/// The state after one turn of the loop.
pub open spec fn poll_state(
    state: MonitorState,
    outcome: Result<DoorStatus, SampleError>,
    policy: NotificationPolicy,
    now: u64,
) -> MonitorState {
    match outcome {
        Ok(door_status) => state.next(door_status.state, policy, now),
        Err(_) => state,
    }
}

/// The notifications of one turn of the loop.
pub open spec fn poll_events(
    state: MonitorState,
    outcome: Result<DoorStatus, SampleError>,
    policy: NotificationPolicy,
    now: u64,
) -> Seq<NotificationEvent> {
    match outcome {
        Ok(door_status) => state.events(door_status.state, policy, now),
        Err(_) => Seq::empty(),
    }
}

} // verus!
