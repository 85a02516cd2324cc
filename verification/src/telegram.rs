//! The Telegram channel: the request that sends one message through a bot.

use vstd::prelude::*;
use vstd::string::*;
use crate::config::Args;

verus! {

/// A request to a bot's `sendMessage` method: the address to post to and the
/// two form fields.
#[derive(Debug, Clone)]
pub struct TelegramRequest {
    pub uri: String,
    pub chat_id: String,
    pub text: String,
}

/// The address of the `sendMessage` method of the bot with this token.
pub open spec fn telegram_uri_text(token: Seq<char>) -> Seq<char> {
    "https://api.telegram.org/bot"@ + token + "/sendMessage"@
}

/// Whether the settings name a bot and a conversation.
pub open spec fn telegram_configured(args: Args) -> bool {
    args.telegram_token.is_some() && args.telegram_conversation_id.is_some()
}

/// The request that sends `message` to the configured conversation, or `None`
/// where the settings lack the token or the conversation: the channel then
/// does nothing.
pub fn telegram_request(args: &Args, message: &str) -> (request: Option<TelegramRequest>)
    ensures
        request.is_some() == telegram_configured(*args),
        telegram_configured(*args) ==> {
            &&& request.unwrap().uri@ == telegram_uri_text(args.telegram_token.unwrap()@)
            &&& request.unwrap().chat_id@ == args.telegram_conversation_id.unwrap()@
            &&& request.unwrap().text@ == message@
        },
{
    match (&args.telegram_token, &args.telegram_conversation_id) {
        (Some(token), Some(conversation_id)) => {
            let mut uri = String::from_str("https://api.telegram.org/bot");
            uri.append(token.as_str());
            uri.append("/sendMessage");
            Some(
                TelegramRequest {
                    uri,
                    chat_id: String::from_str(conversation_id.as_str()),
                    text: String::from_str(message),
                },
            )
        },
        _ => None,
    }
}

/// The text of the test message: the configured one, or nothing.
pub open spec fn test_message_text(args: Args) -> Seq<char> {
    match args.test_message {
        Some(message) => message@,
        None => Seq::empty(),
    }
}

/// The request that sends the configured test message, an empty one where
/// none is configured; `None` where the settings lack the token or the
/// conversation.
pub fn telegram_test_request(args: &Args) -> (request: Option<TelegramRequest>)
    ensures
        request.is_some() == telegram_configured(*args),
        telegram_configured(*args) ==> {
            &&& request.unwrap().uri@ == telegram_uri_text(args.telegram_token.unwrap()@)
            &&& request.unwrap().chat_id@ == args.telegram_conversation_id.unwrap()@
            &&& request.unwrap().text@ == test_message_text(*args)
        },
{
    match &args.test_message {
        Some(message) => telegram_request(args, message.as_str()),
        None => {
            proof {
                reveal_strlit("");
            }
            assert(""@ =~= Seq::<char>::empty());
            telegram_request(args, "")
        },
    }
}

} // verus!
