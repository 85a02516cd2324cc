//! The fan-out of one notification to the channels that are switched on.

use vstd::prelude::*;
use crate::config::Args;
use crate::monitor::NotificationEvent;
use crate::sms::{sms_configured, sms_request_uri, sms_uri_text};
use crate::telegram::{telegram_configured, telegram_request, telegram_uri_text, TelegramRequest};

verus! {

/// What is to be sent for one notification: the message, and for each channel
/// the request to make, or `None` where the channel is switched off or lacks
/// its settings.
#[derive(Debug, Clone)]
pub struct Dispatch {
    pub message: String,
    pub sms_uri: Option<String>,
    pub telegram: Option<TelegramRequest>,
}

/// Whether the SMS channel takes part: it is on and fully configured.
pub open spec fn sms_takes_part(args: Args) -> bool {
    !args.sms_off && sms_configured(args)
}

/// Whether the Telegram channel takes part: it is on and fully configured.
pub open spec fn telegram_takes_part(args: Args) -> bool {
    !args.telegram_off && telegram_configured(args)
}

/// Plans the sending of `event`: renders its message and makes a request for
/// every channel that is on and configured. The channels do not depend on
/// each other.
pub fn plan_dispatch(args: &Args, event: &NotificationEvent) -> (plan: Dispatch)
    ensures
        plan.message@ == event.text(),
        plan.sms_uri.is_some() == sms_takes_part(*args),
        sms_takes_part(*args) ==> plan.sms_uri.unwrap()@ == sms_uri_text(
            args.sms_api_username.unwrap()@,
            args.sms_api_password.unwrap()@,
            args.sms_from_phone_number.unwrap()@,
            args.sms_to_phone_number.unwrap()@,
            event.text(),
        ),
        plan.telegram.is_some() == telegram_takes_part(*args),
        telegram_takes_part(*args) ==> {
            &&& plan.telegram.unwrap().uri@ == telegram_uri_text(args.telegram_token.unwrap()@)
            &&& plan.telegram.unwrap().chat_id@ == args.telegram_conversation_id.unwrap()@
            &&& plan.telegram.unwrap().text@ == event.text()
        },
{
    let message = event.message();
    let sms_uri = if args.sms_off {
        None
    } else {
        sms_request_uri(args, message.as_str())
    };
    let telegram = if args.telegram_off {
        None
    } else {
        telegram_request(args, message.as_str())
    };
    Dispatch { message, sms_uri, telegram }
}

} // verus!
