//! The event router: what is to be done for one inbound event.

use crate::commands::debug_command::HostMetrics;
use crate::events::interaction_create::{reply_of, Reply, ReplyView};
use crate::events::ready::ReadyRecord;
use crate::model::Event;
use vstd::prelude::*;

pub mod interaction_create;
pub mod ready;

verus! {

/// What the caller is to do after an event was handled.
#[derive(Debug, PartialEq, Eq)]
pub enum EventOutcome {
    /// Record that a shard is connected; nothing is sent.
    Ready(ReadyRecord),
    /// Send this one response for the interaction.
    Respond(Reply),
    /// Nothing is to be done.
    Ignored,
}

/// What an [`EventOutcome`] holds.
pub enum EventOutcomeView {
    Ready(ReadyRecord),
    Respond(ReplyView),
    Ignored,
}

impl View for EventOutcome {
    type V = EventOutcomeView;

    open spec fn view(&self) -> EventOutcomeView {
        match *self {
            EventOutcome::Ready(record) => EventOutcomeView::Ready(record),
            EventOutcome::Respond(reply) => EventOutcomeView::Respond(reply@),
            EventOutcome::Ignored => EventOutcomeView::Ignored,
        }
    }
}

/// What an event on a shard leads to, on a host with these metrics.
pub open spec fn routed(shard_id: u64, event: Event, metrics: HostMetrics) -> EventOutcomeView {
    match event {
        Event::Ready(payload) => EventOutcomeView::Ready(
            ReadyRecord { shard_id, user_id: payload.user_id },
        ),
        Event::InteractionCreate(interaction) => EventOutcomeView::Respond(
            reply_of(interaction, metrics),
        ),
        Event::Other => EventOutcomeView::Ignored,
    }
}

/// Forwards events to the appropriate handler.
pub fn handle_event(shard_id: u64, event: Event) -> (outcome: EventOutcome)
    ensures
        exists|metrics: HostMetrics| outcome@ == #[trigger] routed(shard_id, event, metrics),
{
    // Where the host is not asked, any metrics bear witness.
    let ghost unread = arbitrary::<HostMetrics>();
    match event {
        Event::Ready(payload) => {
            let outcome = EventOutcome::Ready(ready::handle_event(shard_id, payload));
            assert(outcome@ == routed(shard_id, event, unread));
            outcome
        },
        Event::InteractionCreate(interaction) => {
            let outcome = EventOutcome::Respond(interaction_create::handle_event(interaction));
            let ghost metrics = choose|metrics: HostMetrics|
                outcome->Respond_0@ == #[trigger] reply_of(interaction, metrics);
            assert(outcome@ == routed(shard_id, event, metrics));
            outcome
        },
        Event::Other => {
            let outcome = EventOutcome::Ignored;
            assert(outcome@ == routed(shard_id, event, unread));
            outcome
        },
    }
}

/// One response per interaction, and none for anything else: an event
/// leads to a reply exactly if it creates an interaction, and that reply is
/// addressed by the interaction's own identifiers and token.
pub proof fn lemma_single_response(shard_id: u64, event: Event, metrics: HostMetrics)
    ensures
        event is InteractionCreate <==> routed(shard_id, event, metrics) is Respond,
        event matches Event::InteractionCreate(interaction) ==> {
            let reply = routed(shard_id, event, metrics)->Respond_0;
            &&& reply == reply_of(interaction, metrics)
            &&& reply.interaction_id == interaction.id
            &&& reply.application_id == interaction.application_id
            &&& reply.token == interaction.token@
        },
{
}

} // verus!
