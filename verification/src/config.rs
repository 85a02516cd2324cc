//! Configuration of the monitor and the notification policy it yields.

use vstd::prelude::*;

verus! {

/// The monitor's settings.
#[derive(Debug, Clone)]
pub struct Args {
    /// Door sensor API URL.
    pub api_url: Option<String>,
    /// Check interval in seconds.
    pub check_interval_seconds: u64,
    /// How many seconds is too long for the door to be open.
    pub open_too_long_seconds: u64,
    /// Disable SMS; the SMS settings are then ignored.
    pub sms_off: bool,
    pub sms_api_username: Option<String>,
    pub sms_api_password: Option<String>,
    /// The number the SMS is sent from.
    pub sms_from_phone_number: Option<String>,
    pub sms_to_phone_number: Option<String>,
    /// Send only one alert per open door instead of progressive reminders.
    pub no_sms_backoff: bool,
    /// Disable Telegram; the Telegram settings are then ignored.
    pub telegram_off: bool,
    pub telegram_token: Option<String>,
    pub telegram_conversation_id: Option<String>,
    /// Send one test message through Telegram instead of monitoring.
    pub telegram_test: bool,
    pub test_message: Option<String>,
}

impl Default for Args {
    /// The settings of a monitor that was told nothing: a check every five
    /// seconds, a door open too long after fifteen, both channels on and
    /// neither configured.
    fn default() -> (args: Self)
        ensures
            args.api_url.is_none(),
            args.check_interval_seconds == 5,
            args.open_too_long_seconds == 15,
            !args.sms_off,
            args.sms_api_username.is_none(),
            args.sms_api_password.is_none(),
            args.sms_from_phone_number.is_none(),
            args.sms_to_phone_number.is_none(),
            !args.no_sms_backoff,
            !args.telegram_off,
            args.telegram_token.is_none(),
            args.telegram_conversation_id.is_none(),
            !args.telegram_test,
            args.test_message.is_none(),
    {
        Args {
            api_url: None,
            check_interval_seconds: 5,
            open_too_long_seconds: 15,
            sms_off: false,
            sms_api_username: None,
            sms_api_password: None,
            sms_from_phone_number: None,
            sms_to_phone_number: None,
            no_sms_backoff: false,
            telegram_off: false,
            telegram_token: None,
            telegram_conversation_id: None,
            telegram_test: false,
            test_message: None,
        }
    }
}

impl Args {
    /// Whether reminders follow the first alert at growing intervals.
    pub fn sms_backoff(&self) -> (backoff: bool)
        ensures
            backoff == !self.no_sms_backoff,
    {
        !self.no_sms_backoff
    }
}

/// The interval, in seconds, that applies once the configured list is used up
/// and the list is empty.
pub const FALLBACK_INTERVAL_SECONDS: u64 = 3600;

/// The default reminder intervals: 5, 15, 30 and 60 minutes, in seconds.
pub open spec fn default_intervals() -> Seq<u64> {
    seq![300u64, 900u64, 1800u64, 3600u64]
}

/// The interval that must pass before reminder number `index`: the entry at
/// `index`, the last entry once the list is used up, and one hour for an
/// empty list.
pub open spec fn interval_at(intervals: Seq<u64>, index: usize) -> u64 {
    if index < intervals.len() {
        intervals[index as int]
    } else if intervals.len() > 0 {
        intervals[intervals.len() - 1]
    } else {
        FALLBACK_INTERVAL_SECONDS
    }
}

/// The default reminder intervals, in seconds.
pub fn default_sms_intervals() -> (intervals: Vec<u64>)
    ensures
        intervals@ == default_intervals(),
{
    let mut intervals: Vec<u64> = Vec::new();
    intervals.push(5 * 60);
    intervals.push(15 * 60);
    intervals.push(30 * 60);
    intervals.push(60 * 60);
    assert(intervals@ =~= default_intervals());
    intervals
}

/// When an open door is reported, and how often.
#[derive(Debug, Clone)]
pub struct NotificationPolicy {
    /// Seconds a door may stay open before the first alert.
    pub warning_threshold: u64,
    /// `true`: reminders at the intervals below; `false`: one alert only.
    pub sms_backoff: bool,
    /// Seconds between one notification and the next, in order.
    pub sms_intervals: Vec<u64>,
}

impl NotificationPolicy {
    /// The policy that the settings ask for, with the default intervals.
    pub fn from_args(args: &Args) -> (policy: Self)
        ensures
            policy.warning_threshold == args.open_too_long_seconds,
            policy.sms_backoff == !args.no_sms_backoff,
            policy.sms_intervals@ == default_intervals(),
    {
        NotificationPolicy {
            warning_threshold: args.open_too_long_seconds,
            sms_backoff: args.sms_backoff(),
            sms_intervals: default_sms_intervals(),
        }
    }

    /// The interval that must pass before reminder number `index`.
    pub fn interval_for(&self, index: usize) -> (interval: u64)
        ensures
            interval == interval_at(self.sms_intervals@, index),
    {
        let n: usize = self.sms_intervals.len();
        if index < n {
            self.sms_intervals[index]
        } else if n > 0 {
            self.sms_intervals[n - 1]
        } else {
            FALLBACK_INTERVAL_SECONDS
        }
    }
}

/// Beyond the end of the list the interval stays at the last entry, however
/// far the index has run.
pub proof fn lemma_interval_holds_at_last(intervals: Seq<u64>, index: usize)
    requires
        intervals.len() > 0,
        index >= intervals.len() - 1,
    ensures
        interval_at(intervals, index) == intervals.last(),
{
}

/// With the default intervals every reminder from the fourth on waits one
/// hour.
pub proof fn lemma_default_interval_settles(index: usize)
    requires
        index >= 3,
    ensures
        interval_at(default_intervals(), index) == 3600,
{
}

} // verus!
