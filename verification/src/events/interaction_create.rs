//! Handler for the interaction create event: the interaction dispatcher.

use crate::commands::debug_command::{
    info_code_block_of, lemma_debug_info_built, HostMetrics, ADMINISTRATOR_ID, INFO_COLOR,
    INFO_TITLE,
};
use crate::commands::{
    command_of, handle_command, registry, unimplemented_command, unimplemented_subcommand, Command,
};
use crate::model::{Interaction, InteractionData};
use crate::response::{
    embed_checked, EmbedView, InteractionResponse, InteractionResponseType,
    InteractionResponseView, EPHEMERAL,
};
use crate::text::utf8_len;
use crate::{outcome_view, CommandError, CommandErrorView, PermissionsErrorView};
use vstd::prelude::*;

verus! {

/// Text of the answer to an interaction that is no application command.
pub const UNIMPLEMENTED_INTERACTION: &'static str = "This interaction has not been implemented yet.";

/// Text shown for a failure that has no message of its own for the user.
pub const UNKNOWN_ERROR: &'static str = "An unknown error occurred.";

/// The one response to an interaction, with what addresses it.
#[derive(Debug, PartialEq, Eq)]
pub struct Reply {
    /// ID of the application the interaction was issued to.
    pub application_id: u64,
    /// ID of the interaction that is answered.
    pub interaction_id: u64,
    /// The interaction's single-use token.
    pub token: String,
    /// The response to send.
    pub response: InteractionResponse,
    /// The failure that the response stands for, to be logged.
    pub failure: Option<CommandError>,
}

/// What a [`Reply`] holds.
pub struct ReplyView {
    pub application_id: u64,
    pub interaction_id: u64,
    pub token: Seq<char>,
    pub response: InteractionResponseView,
    pub failure: Option<CommandErrorView>,
}

impl View for Reply {
    type V = ReplyView;

    open spec fn view(&self) -> ReplyView {
        ReplyView {
            application_id: self.application_id,
            interaction_id: self.interaction_id,
            token: self.token@,
            response: self.response@,
            failure: match self.failure {
                Some(error) => Some(error@),
                None => None,
            },
        }
    }
}

/// The answer to an interaction that is no application command.
pub open spec fn unimplemented_interaction() -> InteractionResponseView {
    InteractionResponseView::message(UNIMPLEMENTED_INTERACTION@)
}

/// The message that a failure is shown as: its own for a permission
/// failure, a generic one for any other.
pub open spec fn error_message(error: CommandErrorView) -> Seq<char> {
    match error {
        CommandErrorView::Permissions(error) => error.message(),
        _ => UNKNOWN_ERROR@,
    }
}

/// The plain-text response that a failure is turned into.
pub open spec fn error_response_of(error: CommandErrorView) -> InteractionResponseView {
    InteractionResponseView::message(error_message(error))
}

/// What handling an interaction gives on a host with these metrics: the
/// command's answer for an application command, the fixed fallback for
/// anything else.
pub open spec fn dispatched(interaction: Interaction, metrics: HostMetrics) -> Result<
    InteractionResponseView,
    CommandErrorView,
> {
    match interaction.command() {
        Some(command) => command_of(interaction.author_id, command, metrics),
        None => Ok(unimplemented_interaction()),
    }
}

/// The reply to an interaction on a host with these metrics: addressed by
/// the interaction's own identifiers and token, carrying the answer, or the
/// response that stands for the failure.
pub open spec fn reply_of(interaction: Interaction, metrics: HostMetrics) -> ReplyView {
    ReplyView {
        application_id: interaction.application_id,
        interaction_id: interaction.id,
        token: interaction.token@,
        response: match dispatched(interaction, metrics) {
            Ok(response) => response,
            Err(error) => error_response_of(error),
        },
        failure: match dispatched(interaction, metrics) {
            Ok(_) => None,
            Err(error) => Some(error),
        },
    }
}

/// Builds the answer to an interaction that is no application command.
pub fn unimplemented_interaction_response() -> (outcome: Result<InteractionResponse, CommandError>)
    ensures
        outcome_view(outcome) == Ok::<InteractionResponseView, CommandErrorView>(
            unimplemented_interaction(),
        ),
{
    Ok(InteractionResponse::message(UNIMPLEMENTED_INTERACTION.to_owned()))
}

/// Turns a failure into the response that the user sees.
pub fn error_response(error: &CommandError) -> (response: InteractionResponse)
    ensures
        response@ == error_response_of(error@),
{
    let message = match error {
        CommandError::Permissions(error) => error.message(),
        _ => UNKNOWN_ERROR.to_owned(),
    };
    InteractionResponse::message(message)
}

/// The dispatcher: sends an application command to the command handler and
/// answers anything else with the fixed fallback, without resolving a
/// command.
pub fn dispatch(interaction: &Interaction) -> (outcome: Result<InteractionResponse, CommandError>)
    ensures
        exists|metrics: HostMetrics|
            outcome_view(outcome) == #[trigger] dispatched(*interaction, metrics),
{
    match &interaction.data {
        // Send application commands to the command handler.
        Some(InteractionData::ApplicationCommand(_)) => {
            let outcome = handle_command(interaction);
            let ghost metrics = choose|metrics: HostMetrics|
                outcome_view(outcome) == #[trigger] command_of(
                    interaction.author_id,
                    interaction.command()->0,
                    metrics,
                );
            assert(outcome_view(outcome) == dispatched(*interaction, metrics));
            outcome
        },
        _ => {
            // The host is not asked: any metrics bear witness.
            let outcome = unimplemented_interaction_response();
            assert(outcome_view(outcome) == dispatched(*interaction, arbitrary::<HostMetrics>()));
            outcome
        },
    }
}

/// Handler for the interaction create event.
///
/// This is called whenever a user uses one of the new interactions
/// (slash commands, buttons, etc). Whatever happens on the way, exactly one
/// response comes out: the handler's answer, or the message that stands for
/// its failure.
pub fn handle_event(interaction: Interaction) -> (reply: Reply)
    ensures
        exists|metrics: HostMetrics| reply@ == #[trigger] reply_of(interaction, metrics),
{
    let command_result = dispatch(&interaction);
    let ghost metrics = choose|metrics: HostMetrics|
        outcome_view(command_result) == #[trigger] dispatched(interaction, metrics);
    let (response, failure) = match command_result {
        Ok(response) => (response, None),
        Err(error) => (error_response(&error), Some(error)),
    };
    let reply = Reply {
        application_id: interaction.application_id,
        interaction_id: interaction.id,
        token: interaction.token,
        response,
        failure,
    };
    assert(reply@ == reply_of(interaction, metrics));
    reply
}

/// Every reply is a channel message for the invoking user only, and holds
/// either a text or exactly one embed.
pub proof fn lemma_reply_shape(interaction: Interaction, metrics: HostMetrics)
    ensures
        ({
            let response = reply_of(interaction, metrics).response;
            &&& response.kind == InteractionResponseType::ChannelMessageWithSource
            &&& response.data is Some
            &&& response.data->0.flags == Some(EPHEMERAL)
            &&& response.data->0.content is Some <==> response.data->0.embeds is None
            &&& response.data->0.embeds is Some ==> response.data->0.embeds->0.len() == 1
        }),
{
}

/// Whoever invokes the privileged command without being the authorized
/// user, or without an identity, is answered with the restricted message
/// and nothing else, whatever the subcommand, the options and the host.
pub proof fn lemma_unauthorized_is_restricted(interaction: Interaction, metrics: HostMetrics)
    requires
        interaction.command() is Some,
        registry(interaction.command()->0.name@) == Some(Command::Debug),
        interaction.author_id != Some(ADMINISTRATOR_ID),
    ensures
        reply_of(interaction, metrics).response == InteractionResponseView::message(
            "You are not allowed perform this action."@,
        ),
        reply_of(interaction, metrics).failure == Some(
            CommandErrorView::Permissions(PermissionsErrorView::Restricted),
        ),
{
}

/// The authorized user is never stopped by the permission guard: no
/// interaction of theirs ends in a permission failure.
pub proof fn lemma_authorized_is_not_restricted(interaction: Interaction, metrics: HostMetrics)
    requires
        interaction.author_id == Some(ADMINISTRATOR_ID),
    ensures
        !(dispatched(interaction, metrics) matches Err(CommandErrorView::Permissions(_))),
{
}

/// An application command whose name the registry does not hold is
/// answered with the fixed fallback, visible to the invoking user only,
/// whoever invokes it.
pub proof fn lemma_unknown_command_fallback(interaction: Interaction, metrics: HostMetrics)
    requires
        interaction.command() is Some,
        registry(interaction.command()->0.name@) is None,
    ensures
        reply_of(interaction, metrics).response == unimplemented_command(),
        reply_of(interaction, metrics).response.data->0.content == Some(
            "This command has not been implemented yet."@,
        ),
        reply_of(interaction, metrics).response.data->0.flags == Some(EPHEMERAL),
        reply_of(interaction, metrics).failure is None,
{
}

/// The authorized user's `debug info`, on a host that lists this process
/// and names its operating system and its CPU in at most 3850 bytes
/// together, is answered with the card of the text block, and nothing fails.
pub proof fn lemma_authorized_info_is_card(interaction: Interaction, metrics: HostMetrics)
    requires
        interaction.command() is Some,
        registry(interaction.command()->0.name@) == Some(Command::Debug),
        interaction.author_id == Some(ADMINISTRATOR_ID),
        interaction.command()->0.subcommand() == Some("info"@),
        metrics.process_memory is Some,
        utf8_len(metrics.os_text()) + utf8_len(metrics.cpu_model@) <= 3850,
    ensures
        reply_of(interaction, metrics).response == InteractionResponseView::card(
            EmbedView {
                title: Some("Lighthouse Debug Information"@),
                description: Some(info_code_block_of(metrics)->Ok_0),
                color: Some(0x545863u32),
            },
        ),
        reply_of(interaction, metrics).failure is None,
{
    lemma_debug_info_built(metrics);
}

/// The privileged command, invoked by the authorized user with a
/// subcommand that it does not know, is answered with the fixed fallback
/// for subcommands.
pub proof fn lemma_unknown_subcommand_fallback(interaction: Interaction, metrics: HostMetrics)
    requires
        interaction.command() is Some,
        registry(interaction.command()->0.name@) == Some(Command::Debug),
        interaction.author_id == Some(ADMINISTRATOR_ID),
        interaction.command()->0.subcommand() is Some,
        interaction.command()->0.subcommand() != Some("info"@),
    ensures
        reply_of(interaction, metrics).response == unimplemented_subcommand(),
        reply_of(interaction, metrics).response.data->0.content == Some(
            "This subcommand has not been implemented yet."@,
        ),
        reply_of(interaction, metrics).failure is None,
{
}

/// An interaction without a payload, or with one that is no application
/// command, is answered with the fixed fallback for interactions; neither
/// the registry nor the host has a say.
pub proof fn lemma_non_command_fallback(interaction: Interaction, metrics: HostMetrics)
    requires
        !(interaction.data matches Some(InteractionData::ApplicationCommand(_))),
    ensures
        reply_of(interaction, metrics).response == unimplemented_interaction(),
        reply_of(interaction, metrics).response.data->0.content == Some(
            "This interaction has not been implemented yet."@,
        ),
        reply_of(interaction, metrics).response.data->0.flags == Some(EPHEMERAL),
        reply_of(interaction, metrics).failure is None,
{
}

/// Where the card for the host's metrics fails validation, the interaction
/// is still answered: with the generic plain-text message, and the
/// validation failure is kept for the log.
pub proof fn lemma_invalid_embed_degrades(interaction: Interaction, metrics: HostMetrics)
    requires
        interaction.command() is Some,
        registry(interaction.command()->0.name@) == Some(Command::Debug),
        interaction.author_id == Some(ADMINISTRATOR_ID),
        interaction.command()->0.subcommand() == Some("info"@),
        info_code_block_of(metrics) is Ok,
        embed_checked(INFO_TITLE@, info_code_block_of(metrics)->Ok_0, INFO_COLOR) is Err,
    ensures
        reply_of(interaction, metrics).response == InteractionResponseView::message(
            "An unknown error occurred."@,
        ),
        reply_of(interaction, metrics).failure == Some(
            CommandErrorView::Validation(
                embed_checked(INFO_TITLE@, info_code_block_of(metrics)->Ok_0, INFO_COLOR)->Err_0,
            ),
        ),
{
}

/// The reply is built on exactly one path: it carries the handler's answer
/// and no failure, or the failure and the plain-text message that stands
/// for it.
pub proof fn lemma_one_response_path(interaction: Interaction, metrics: HostMetrics)
    ensures
        match dispatched(interaction, metrics) {
            Ok(answer) => {
                &&& reply_of(interaction, metrics).response == answer
                &&& reply_of(interaction, metrics).failure is None
            },
            Err(error) => {
                &&& reply_of(interaction, metrics).response == InteractionResponseView::message(
                    error_message(error),
                )
                &&& reply_of(interaction, metrics).failure == Some(error)
            },
        },
{
}

} // verus!
