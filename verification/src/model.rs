//! The inbound side: gateway events and the interactions they carry.

use vstd::prelude::*;

verus! {

/// One option node of a command: a subcommand with its nested options, or a
/// leaf option, whose value the dispatch does not read.
#[derive(Debug, PartialEq, Eq)]
pub struct CommandDataOption {
    /// Name of the option.
    pub name: String,
    /// Options nested in a subcommand; empty for a leaf option.
    pub options: Vec<CommandDataOption>,
}

/// Payload of an application-command interaction.
#[derive(Debug, PartialEq, Eq)]
pub struct CommandData {
    /// Name of the command.
    pub name: String,
    /// List of options specified by the user, in their order.
    pub options: Vec<CommandDataOption>,
}

/// Payload of an interaction, by kind.
#[derive(Debug, PartialEq, Eq)]
pub enum InteractionData {
    /// A command was invoked.
    ApplicationCommand(CommandData),
    /// A component of a message was used.
    MessageComponent,
    /// A modal was submitted.
    ModalSubmit,
}

/// A single user-initiated request, which is owed exactly one response.
#[derive(Debug, PartialEq, Eq)]
pub struct Interaction {
    /// ID of the interaction.
    pub id: u64,
    /// ID of the application the interaction was issued to.
    pub application_id: u64,
    /// Single-use token for responding to the interaction.
    pub token: String,
    /// ID of the user that invoked the interaction, where there is one.
    pub author_id: Option<u64>,
    /// Data from the interaction.
    pub data: Option<InteractionData>,
}

/// Payload of the notification that a shard is connected.
#[derive(Debug, Clone, Copy, PartialEq, Eq)]
pub struct Ready {
    /// ID of the user the shard is connected as.
    pub user_id: u64,
}

/// An inbound gateway event, by tag.
#[derive(Debug, PartialEq, Eq)]
pub enum Event {
    /// A shard is connected.
    Ready(Ready),
    /// A user issued an interaction.
    InteractionCreate(Interaction),
    /// Any other kind of event.
    Other,
}

impl Interaction {
    /// The command payload, where this is an application-command
    /// interaction.
    pub open spec fn command(self) -> Option<CommandData> {
        match self.data {
            Some(InteractionData::ApplicationCommand(command)) => Some(command),
            _ => None,
        }
    }
}

impl CommandData {
    /// The name of the first option node, which selects the subcommand.
    pub open spec fn subcommand(self) -> Option<Seq<char>> {
        if self.options.len() > 0 {
            Some(self.options[0].name@)
        } else {
            None
        }
    }
}

} // verus!
