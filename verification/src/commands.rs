//! The command registry and the fallbacks for what it does not hold.

use crate::commands::debug_command::{debug_command_of, handle_debug_command, HostMetrics};
use crate::model::{CommandData, Interaction, InteractionData};
use crate::response::{InteractionResponse, InteractionResponseView};
use crate::text::same_text;
use crate::{outcome_view, CommandError, CommandErrorView};
use vstd::prelude::*;

pub mod debug_command;

verus! {

/// Name of the debug command.
pub const DEBUG_NAME: &'static str = "debug";

/// Text of the answer to a command that the registry does not hold.
pub const UNIMPLEMENTED_COMMAND: &'static str = "This command has not been implemented yet.";

/// Text of the answer to a subcommand that its command does not know.
pub const UNIMPLEMENTED_SUBCOMMAND: &'static str = "This subcommand has not been implemented yet.";

/// A command that the registry holds.
#[derive(Debug, Clone, Copy, PartialEq, Eq, Structural)]
pub enum Command {
    /// Shows information about the bot; for its owner only.
    Debug,
}

/// The registry: the closed mapping from command names to commands.
pub open spec fn registry(name: Seq<char>) -> Option<Command> {
    if name =~= DEBUG_NAME@ {
        Some(Command::Debug)
    } else {
        None
    }
}

/// Looks a command name up in the registry.
pub fn lookup(name: &str) -> (found: Option<Command>)
    ensures
        found == registry(name@),
{
    if same_text(name, DEBUG_NAME) {
        Some(Command::Debug)
    } else {
        None
    }
}

/// The answer to a command that the registry does not hold.
pub open spec fn unimplemented_command() -> InteractionResponseView {
    InteractionResponseView::message(UNIMPLEMENTED_COMMAND@)
}

/// The answer to a subcommand that its command does not know.
pub open spec fn unimplemented_subcommand() -> InteractionResponseView {
    InteractionResponseView::message(UNIMPLEMENTED_SUBCOMMAND@)
}

/// Builds the answer to a command that the registry does not hold.
pub fn unimplemented_command_response() -> (response: InteractionResponse)
    ensures
        response@ == unimplemented_command(),
{
    InteractionResponse::message(UNIMPLEMENTED_COMMAND.to_owned())
}

/// Builds the answer to a subcommand that its command does not know.
pub fn unimplemented_subcommand_response() -> (response: InteractionResponse)
    ensures
        response@ == unimplemented_subcommand(),
{
    InteractionResponse::message(UNIMPLEMENTED_SUBCOMMAND.to_owned())
}

/// What a command is answered with on a host with these metrics: the
/// answer of its handler where the registry holds its name, the fixed
/// fallback where it does not.
pub open spec fn command_of(author: Option<u64>, command: CommandData, metrics: HostMetrics) -> Result<
    InteractionResponseView,
    CommandErrorView,
> {
    match registry(command.name@) {
        Some(Command::Debug) => debug_command_of(author, command, metrics),
        None => Ok(unimplemented_command()),
    }
}

/// Resolves the command of an application-command interaction and runs its
/// handler.
pub fn handle_command(interaction: &Interaction) -> (outcome: Result<InteractionResponse, CommandError>)
    requires
        interaction.command() is Some,
    ensures
        exists|metrics: HostMetrics|
            outcome_view(outcome) == #[trigger] command_of(
                interaction.author_id,
                interaction.command()->0,
                metrics,
            ),
{
    match &interaction.data {
        Some(InteractionData::ApplicationCommand(command)) => {
            match lookup(command.name.as_str()) {
                Some(Command::Debug) => {
                    let outcome = handle_debug_command(interaction, command);
                    let ghost metrics = choose|metrics: HostMetrics|
                        outcome_view(outcome) == #[trigger] debug_command_of(
                            interaction.author_id,
                            *command,
                            metrics,
                        );
                    assert(outcome_view(outcome) == command_of(
                        interaction.author_id,
                        interaction.command()->0,
                        metrics,
                    ));
                    outcome
                },
                None => {
                    // The host is not asked: any metrics bear witness.
                    let outcome = Ok(unimplemented_command_response());
                    assert(outcome_view(outcome) == command_of(
                        interaction.author_id,
                        interaction.command()->0,
                        arbitrary::<HostMetrics>(),
                    ));
                    outcome
                },
            }
        },
        _ => unreached(),
    }
}

} // verus!
