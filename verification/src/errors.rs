//! What the bot does when a command fails.
use vstd::prelude::*;
use crate::card::{Card, error_card, notice_red, is_plain};

verus! {

/// A failure reported by the command framework, as far as the answer to it
/// depends on it.
pub enum Failure {
    /// A command returned an error with this text.
    Command(String),
    /// A command's check failed, with or without an error text.
    CheckFailed(Option<String>),
    /// The bot could not be set up.
    Setup,
    /// Anything else.
    Other,
}

/// The answer to a failure.
pub enum FailureResponse {
    /// Reply to the user, visible only to them, with this card.
    Reply(Card),
    /// Log that set-up failed.
    LogSetupFailure,
    /// Leave it to the framework's default handler.
    DefaultHandler,
}

/// Answers a failure: command errors and failed checks get the error card
/// (a failed check without a text reads "Unexpected"), a failed set-up is
/// logged, and the rest goes to the framework.
pub fn handle_failure(failure: Failure) -> (r: FailureResponse)
    ensures
        match failure {
            Failure::Command(message) => r matches FailureResponse::Reply(c) && {
                &&& c.title is Some
                &&& c.title->0@ == "❌ Oops... an error ocurred."@
                &&& c.color == notice_red()
                &&& c.footer is None
                &&& is_plain(c)
                &&& c.description is Some
                &&& c.description->0@ == message@
            },
            Failure::CheckFailed(message) => r matches FailureResponse::Reply(c) && {
                &&& c.title is Some
                &&& c.title->0@ == "❌ Oops... an error ocurred."@
                &&& c.color == notice_red()
                &&& c.footer is None
                &&& is_plain(c)
                &&& c.description is Some
                &&& c.description->0@ == (match message {
                    Some(m) => m@,
                    None => "Unexpected"@,
                })
            },
            Failure::Setup => r is LogSetupFailure,
            Failure::Other => r is DefaultHandler,
        },
{
    match failure {
        Failure::Command(message) => FailureResponse::Reply(error_card(Some(message))),
        Failure::CheckFailed(message) => FailureResponse::Reply(error_card(message)),
        Failure::Setup => FailureResponse::LogSetupFailure,
        Failure::Other => FailureResponse::DefaultHandler,
    }
}

} // verus!
