//! Routing of gateway events to their handlers.
//!
//! The table below is the one place that says which events are handled; every
//! other event is ignored, which is a success and never an error.

use vstd::prelude::*;

use crate::context::{Context, ContextKind, Interaction};

verus! {

/// The events the gateway delivers, by kind.
#[derive(Clone, Copy, Debug, PartialEq, Eq, Structural)]
pub enum EventKind {
    Ready,
    GuildCreate,
    GuildDelete,
    InteractionCreate,
    VoiceStateUpdate,
    /// Any event that no handler takes, including kinds added later.
    Other,
}

/// The handler an event goes to.
#[derive(Clone, Copy, Debug, PartialEq, Eq, Structural)]
pub enum Route {
    Ready,
    GuildCreate,
    GuildDelete,
    Interaction,
    VoiceStateUpdate,
    /// Nothing to do: the event succeeds as it is.
    Ignore,
}

/// The routing table.
pub open spec fn spec_route(event: EventKind) -> Route {
    match event {
        EventKind::Ready => Route::Ready,
        EventKind::GuildCreate => Route::GuildCreate,
        EventKind::GuildDelete => Route::GuildDelete,
        EventKind::InteractionCreate => Route::Interaction,
        EventKind::VoiceStateUpdate => Route::VoiceStateUpdate,
        EventKind::Other => Route::Ignore,
    }
}

/// The handler `event` goes to; an event of no handled kind is ignored.
pub fn route(event: EventKind) -> (r: Route)
    ensures
        r == spec_route(event),
        r == Route::Ignore <==> event == EventKind::Other,
{
    match event {
        EventKind::Ready => Route::Ready,
        EventKind::GuildCreate => Route::GuildCreate,
        EventKind::GuildDelete => Route::GuildDelete,
        EventKind::InteractionCreate => Route::Interaction,
        EventKind::VoiceStateUpdate => Route::VoiceStateUpdate,
        EventKind::Other => Route::Ignore,
    }
}

/// The context an interaction event is handled with: the one of the kind
/// that its own wire-level type stands for. An interaction of a type that no
/// kind stands for (a ping) gets none and is ignored. Because the kind is
/// picked from the same type that construction checks, construction never
/// fails here.
pub fn interaction_context<B, P>(interaction: Interaction<P>, bot: B) -> (r: Option<
    Context<B, P>,
>)
    ensures
        r is Some <==> ContextKind::spec_for_wire_type(interaction.kind) is Some,
        r matches Some(c) ==> Some(c.spec_kind()) == ContextKind::spec_for_wire_type(
            interaction.kind,
        ) && c.spec_interaction() == interaction && c.spec_bot() == bot,
{
    match ContextKind::for_wire_type(interaction.kind) {
        Some(kind) => match Context::from_interaction(kind, interaction, bot) {
            Ok(c) => Some(c),
            Err(_) => {
                assert(false);
                None
            },
        },
        None => None,
    }
}

} // verus!
