//! Event routing and interaction dispatch for the lighthouse bot.
//!
//! An inbound gateway event is routed by its tag ([`events`]). An
//! interaction is resolved to a command ([`commands`]), checked by the
//! permission guard ([`guard`]), handled, and answered with exactly one
//! response ([`response`]); a failure on the way becomes a plain-text
//! response of its own. Receiving events and delivering responses is the
//! caller's part: the library takes plain values ([`model`]) and gives plain
//! values back.
//!
//! One answer depends on more than the interaction: the debug information
//! shows what the host reports of itself. The contracts say what is answered
//! on a host with given metrics, and the handlers promise that answer for
//! some metrics.

use crate::response::{EmbedValidationError, InteractionResponse, InteractionResponseView};
use vstd::prelude::*;

pub mod commands;
pub mod events;
pub mod model;
pub mod response;
pub mod text;

verus! {

/// Message for a caller who may not perform the action at all.
pub const RESTRICTED: &'static str = "You are not allowed perform this action.";

/// Start of the message for a caller who lacks permissions; their names and
/// a full stop follow.
pub const USER_MISSING_PERMISSIONS: &'static str =
    "To perform this action, you must have the following permissions: ";

/// Start of the message for permissions that the bot lacks; their names and
/// a full stop follow.
pub const BOT_MISSING_PERMISSIONS: &'static str =
    "To perform this action, lighthouse must have the following permissions: ";

/// A permission failure, each with a fixed message for the user.
#[derive(Debug, PartialEq, Eq)]
pub enum PermissionsError {
    /// Represents when the user is not permitted to perform an action.
    Restricted,
    /// Represents when the user is missing one or more permissions in the
    /// current context.
    UserMissingPermissions { expected_permissions: String },
    /// Represents when the bot is missing one or more permissions in the
    /// current context.
    BotMissingPermissions { expected_permissions: String },
}

/// What a [`PermissionsError`] holds, with its text as a sequence of characters.
pub enum PermissionsErrorView {
    Restricted,
    UserMissingPermissions { expected_permissions: Seq<char> },
    BotMissingPermissions { expected_permissions: Seq<char> },
}

impl View for PermissionsError {
    type V = PermissionsErrorView;

    open spec fn view(&self) -> PermissionsErrorView {
        match *self {
            PermissionsError::Restricted => PermissionsErrorView::Restricted,
            PermissionsError::UserMissingPermissions { expected_permissions } => {
                PermissionsErrorView::UserMissingPermissions {
                    expected_permissions: expected_permissions@,
                }
            },
            PermissionsError::BotMissingPermissions { expected_permissions } => {
                PermissionsErrorView::BotMissingPermissions {
                    expected_permissions: expected_permissions@,
                }
            },
        }
    }
}

impl PermissionsErrorView {
    /// The message shown to the user for this error.
    pub open spec fn message(self) -> Seq<char> {
        match self {
            PermissionsErrorView::Restricted => RESTRICTED@,
            PermissionsErrorView::UserMissingPermissions { expected_permissions } => {
                USER_MISSING_PERMISSIONS@ + expected_permissions + "."@
            },
            PermissionsErrorView::BotMissingPermissions { expected_permissions } => {
                BOT_MISSING_PERMISSIONS@ + expected_permissions + "."@
            },
        }
    }
}

impl PermissionsError {
    /// Renders the message shown to the user for this error.
    pub fn message(&self) -> (text: String)
        ensures
            text@ == self@.message(),
    {
        match self {
            PermissionsError::Restricted => RESTRICTED.to_owned(),
            PermissionsError::UserMissingPermissions { expected_permissions } => {
                let mut text = USER_MISSING_PERMISSIONS.to_owned();
                text.append(expected_permissions.as_str());
                text.append(".");
                text
            },
            PermissionsError::BotMissingPermissions { expected_permissions } => {
                let mut text = BOT_MISSING_PERMISSIONS.to_owned();
                text.append(expected_permissions.as_str());
                text.append(".");
                text
            },
        }
    }
}

/// A failure raised while a command is handled.
#[derive(Debug, PartialEq, Eq)]
pub enum CommandError {
    /// The caller or the bot lacks a permission.
    Permissions(PermissionsError),
    /// A response payload was refused by the platform's limits.
    Validation(EmbedValidationError),
    /// The command came without the subcommand that its schema requires.
    MissingSubcommand,
    /// The host did not report the metrics of this process.
    MetricsUnavailable,
}

/// What a [`CommandError`] holds.
pub enum CommandErrorView {
    Permissions(PermissionsErrorView),
    Validation(EmbedValidationError),
    MissingSubcommand,
    MetricsUnavailable,
}

impl View for CommandError {
    type V = CommandErrorView;

    open spec fn view(&self) -> CommandErrorView {
        match *self {
            CommandError::Permissions(error) => CommandErrorView::Permissions(error@),
            CommandError::Validation(error) => CommandErrorView::Validation(error),
            CommandError::MissingSubcommand => CommandErrorView::MissingSubcommand,
            CommandError::MetricsUnavailable => CommandErrorView::MetricsUnavailable,
        }
    }
}

/// The view of a text that was produced or refused.
pub open spec fn text_outcome(outcome: Result<String, CommandError>) -> Result<
    Seq<char>,
    CommandErrorView,
> {
    match outcome {
        Ok(text) => Ok(text@),
        Err(error) => Err(error@),
    }
}

/// The view of a response that was produced or refused.
pub open spec fn outcome_view(outcome: Result<InteractionResponse, CommandError>) -> Result<
    InteractionResponseView,
    CommandErrorView,
> {
    match outcome {
        Ok(response) => Ok(response@),
        Err(error) => Err(error@),
    }
}

/// The permission policy: only the one authorized user may go on. Everyone
/// else, and a caller without identity, is restricted.
pub open spec fn permitted(author: Option<u64>, authorized: u64) -> bool {
    author == Some(authorized)
}

/// The permission guard: checks the invoking user against the one
/// authorized user.
pub fn guard(author: Option<u64>, authorized: u64) -> (checked: Result<(), PermissionsError>)
    ensures
        checked is Ok <==> permitted(author, authorized),
        checked is Err ==> checked->Err_0@ == PermissionsErrorView::Restricted,
{
    match author {
        Some(id) if id == authorized => Ok(()),
        _ => Err(PermissionsError::Restricted),
    }
}

} // verus!
