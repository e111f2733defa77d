//! Interaction contexts tied to their kind.
//!
//! A context is built from a raw interaction only where the interaction's
//! wire-level type is the one its kind stands for; a handler that takes a
//! context of some kind never checks the type again.

use vstd::prelude::*;

verus! {

/// The wire-level type of an interaction, as the gateway sends it.
#[derive(Clone, Copy, Debug, PartialEq, Eq, Structural)]
pub enum InteractionType {
    Ping,
    ApplicationCommand,
    MessageComponent,
    ApplicationCommandAutocomplete,
    ModalSubmit,
    Unknown(u8),
}

/// The logical kinds of interaction that handlers take.
#[derive(Clone, Copy, Debug, PartialEq, Eq, Structural)]
pub enum ContextKind {
    /// A slash command.
    App,
    /// A button press or a select menu.
    Component,
    /// A submitted modal.
    Modal,
    /// An autocomplete query.
    Autocomplete,
}

impl ContextKind {
    /// The wire-level type each kind stands for: the one table of the
    /// correspondence.
    pub open spec fn spec_wire_type(self) -> InteractionType {
        match self {
            ContextKind::App => InteractionType::ApplicationCommand,
            ContextKind::Component => InteractionType::MessageComponent,
            ContextKind::Modal => InteractionType::ModalSubmit,
            ContextKind::Autocomplete => InteractionType::ApplicationCommandAutocomplete,
        }
    }

    /// The wire-level type this kind stands for.
    pub fn wire_type(self) -> (r: InteractionType)
        ensures
            r == self.spec_wire_type(),
    {
        match self {
            ContextKind::App => InteractionType::ApplicationCommand,
            ContextKind::Component => InteractionType::MessageComponent,
            ContextKind::Modal => InteractionType::ModalSubmit,
            ContextKind::Autocomplete => InteractionType::ApplicationCommandAutocomplete,
        }
    }

    /// The kind that stands for a wire-level type, where one does.
    pub open spec fn spec_for_wire_type(ty: InteractionType) -> Option<ContextKind> {
        match ty {
            InteractionType::ApplicationCommand => Some(ContextKind::App),
            InteractionType::MessageComponent => Some(ContextKind::Component),
            InteractionType::ModalSubmit => Some(ContextKind::Modal),
            InteractionType::ApplicationCommandAutocomplete => Some(ContextKind::Autocomplete),
            _ => None,
        }
    }

    /// The kind that stands for a wire-level type, where one does.
    pub fn for_wire_type(ty: InteractionType) -> (r: Option<ContextKind>)
        ensures
            r == ContextKind::spec_for_wire_type(ty),
    {
        match ty {
            InteractionType::ApplicationCommand => Some(ContextKind::App),
            InteractionType::MessageComponent => Some(ContextKind::Component),
            InteractionType::ModalSubmit => Some(ContextKind::Modal),
            InteractionType::ApplicationCommandAutocomplete => Some(ContextKind::Autocomplete),
            _ => None,
        }
    }
}

/// The table is one to one: a wire-level type has a kind exactly where some
/// kind stands for it, and then that kind alone.
pub proof fn lemma_kind_table_one_to_one(kind: ContextKind, ty: InteractionType)
    ensures
        (kind.spec_wire_type() == ty) <==> (ContextKind::spec_for_wire_type(ty) == Some(kind)),
{
}

/// A raw interaction: its wire-level type and the payload it came with.
#[derive(Debug, PartialEq, Eq)]
pub struct Interaction<P> {
    pub kind: InteractionType,
    pub payload: P,
}

/// A context was asked for from an interaction of another type.
#[derive(Clone, Copy, Debug, PartialEq, Eq, Structural)]
pub struct KindMismatch {
    pub expected: ContextKind,
    pub found: InteractionType,
}

/// The bot-wide state `bot`, shared with every handler, and an interaction
/// owned by this context, whose type is the one that `kind` stands for.
pub struct Context<B, P> {
    bot: B,
    interaction: Interaction<P>,
    kind: ContextKind,
}

impl<B, P> Context<B, P> {
    #[verifier::type_invariant]
    spec fn kind_matches(self) -> bool {
        self.interaction.kind == self.kind.spec_wire_type()
    }

    /// The kind of this context.
    pub closed spec fn spec_kind(self) -> ContextKind {
        self.kind
    }

    /// The interaction this context owns.
    pub closed spec fn spec_interaction(self) -> Interaction<P> {
        self.interaction
    }

    /// The bot-wide state this context shares.
    pub closed spec fn spec_bot(self) -> B {
        self.bot
    }

    /// Builds the context of `kind` from `interaction`: it succeeds exactly
    /// where the interaction's type is the one `kind` stands for, and then
    /// holds the interaction unchanged.
    pub fn from_interaction(kind: ContextKind, interaction: Interaction<P>, bot: B) -> (r: Result<
        Context<B, P>,
        KindMismatch,
    >)
        ensures
            r is Ok <==> interaction.kind == kind.spec_wire_type(),
            r matches Ok(c) ==> c.spec_kind() == kind && c.spec_interaction() == interaction
                && c.spec_bot() == bot,
            r matches Err(e) ==> e == (KindMismatch { expected: kind, found: interaction.kind }),
    {
        if interaction.kind == kind.wire_type() {
            Ok(Context { bot, interaction, kind })
        } else {
            Err(KindMismatch { expected: kind, found: interaction.kind })
        }
    }

    /// The context of a slash command.
    pub fn from_app_interaction(interaction: Interaction<P>, bot: B) -> (r: Result<
        Context<B, P>,
        KindMismatch,
    >)
        ensures
            r is Ok <==> interaction.kind == InteractionType::ApplicationCommand,
            r matches Ok(c) ==> c.spec_kind() == ContextKind::App && c.spec_interaction()
                == interaction && c.spec_bot() == bot,
            r matches Err(e) ==> e == (KindMismatch {
                expected: ContextKind::App,
                found: interaction.kind,
            }),
    {
        Self::from_interaction(ContextKind::App, interaction, bot)
    }

    /// The context of a message component.
    pub fn from_component_interaction(interaction: Interaction<P>, bot: B) -> (r: Result<
        Context<B, P>,
        KindMismatch,
    >)
        ensures
            r is Ok <==> interaction.kind == InteractionType::MessageComponent,
            r matches Ok(c) ==> c.spec_kind() == ContextKind::Component && c.spec_interaction()
                == interaction && c.spec_bot() == bot,
            r matches Err(e) ==> e == (KindMismatch {
                expected: ContextKind::Component,
                found: interaction.kind,
            }),
    {
        Self::from_interaction(ContextKind::Component, interaction, bot)
    }

    /// The context of a modal submission.
    pub fn from_modal_interaction(interaction: Interaction<P>, bot: B) -> (r: Result<
        Context<B, P>,
        KindMismatch,
    >)
        ensures
            r is Ok <==> interaction.kind == InteractionType::ModalSubmit,
            r matches Ok(c) ==> c.spec_kind() == ContextKind::Modal && c.spec_interaction()
                == interaction && c.spec_bot() == bot,
            r matches Err(e) ==> e == (KindMismatch {
                expected: ContextKind::Modal,
                found: interaction.kind,
            }),
    {
        Self::from_interaction(ContextKind::Modal, interaction, bot)
    }

    /// The context of an autocomplete query.
    pub fn from_autocomplete_interaction(interaction: Interaction<P>, bot: B) -> (r: Result<
        Context<B, P>,
        KindMismatch,
    >)
        ensures
            r is Ok <==> interaction.kind == InteractionType::ApplicationCommandAutocomplete,
            r matches Ok(c) ==> c.spec_kind() == ContextKind::Autocomplete && c.spec_interaction()
                == interaction && c.spec_bot() == bot,
            r matches Err(e) ==> e == (KindMismatch {
                expected: ContextKind::Autocomplete,
                found: interaction.kind,
            }),
    {
        Self::from_interaction(ContextKind::Autocomplete, interaction, bot)
    }

    /// The kind of this context; the interaction is of the type it stands for.
    pub fn kind(&self) -> (r: ContextKind)
        ensures
            r == self.spec_kind(),
            self.spec_interaction().kind == r.spec_wire_type(),
    {
        proof {
            use_type_invariant(self);
        }
        self.kind
    }

    /// The interaction this context owns.
    pub fn interaction(&self) -> (r: &Interaction<P>)
        ensures
            *r == self.spec_interaction(),
    {
        &self.interaction
    }

    /// The bot-wide state this context shares.
    pub fn bot(&self) -> (r: &B)
        ensures
            *r == self.spec_bot(),
    {
        &self.bot
    }

    /// Gives up the context for the interaction it owns.
    pub fn into_interaction(self) -> (r: Interaction<P>)
        ensures
            r == self.spec_interaction(),
            r.kind == self.spec_kind().spec_wire_type(),
    {
        proof {
            use_type_invariant(&self);
        }
        self.interaction
    }
}

} // verus!
