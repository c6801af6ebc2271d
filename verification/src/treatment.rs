//! How a Message is to be handled, and what produced it.

use vstd::prelude::*;

verus! {

/// How urgently this Message should be picked up relative to others.
#[derive(Clone, Copy, Debug, PartialEq, Eq, Structural)]
pub enum MessagePriority {
    Immediate,
    High,
    Normal,
    Low,
    Background,
}

/// What kind of work this is, which decides how much ceremony it earns.
#[derive(Clone, Copy, Debug, PartialEq, Eq, Structural)]
pub enum ExecutionProfile {
    /// A caller is waiting. Latency matters more than history.
    Conversation,
    /// The default. Full history, full recovery.
    Business,
    /// Moved, not understood. No content handling on the way through.
    PassThrough,
}

/// What survives a restart.
#[derive(Clone, Copy, Debug, PartialEq, Eq, Structural)]
pub enum MessageDurability {
    /// Lost on restart, and that is acceptable for this Message.
    Ephemeral,
    /// Written down, but not resumed automatically.
    Durable,
    /// Written down and resumed from where it stopped.
    Recoverable,
}

/// How a Message is to be handled, independent of its format or its size.
#[derive(Clone, Copy, Debug, PartialEq, Eq, Structural)]
pub struct MessageTreatment {
    pub priority: MessagePriority,
    pub execution_profile: ExecutionProfile,
    pub durability: MessageDurability,
}

impl MessageTreatment {
    /// The preset for a caller that is waiting: picked up first, not written
    /// down. Its values are this library's own choice, read from the doc of
    /// each variant.
    pub open spec fn spec_conversation() -> MessageTreatment {
        MessageTreatment {
            priority: MessagePriority::Immediate,
            execution_profile: ExecutionProfile::Conversation,
            durability: MessageDurability::Ephemeral,
        }
    }

    /// The default preset: full history, full recovery.
    pub open spec fn spec_business() -> MessageTreatment {
        MessageTreatment {
            priority: MessagePriority::Normal,
            execution_profile: ExecutionProfile::Business,
            durability: MessageDurability::Recoverable,
        }
    }

    /// The preset for content that is moved, not understood. Its values are
    /// this library's own choice, read from the doc of each variant.
    pub open spec fn spec_pass_through() -> MessageTreatment {
        MessageTreatment {
            priority: MessagePriority::Normal,
            execution_profile: ExecutionProfile::PassThrough,
            durability: MessageDurability::Durable,
        }
    }

    /// A caller is waiting: `Immediate`, `Conversation`, `Ephemeral`, values
    /// of this library's own choice.
    #[verifier::when_used_as_spec(spec_conversation)]
    pub fn conversation() -> (t: MessageTreatment)
        ensures
            t == MessageTreatment::spec_conversation(),
    {
        MessageTreatment {
            priority: MessagePriority::Immediate,
            execution_profile: ExecutionProfile::Conversation,
            durability: MessageDurability::Ephemeral,
        }
    }

    /// The default: `Normal`, `Business`, `Recoverable`.
    #[verifier::when_used_as_spec(spec_business)]
    pub fn business() -> (t: MessageTreatment)
        ensures
            t == MessageTreatment::spec_business(),
    {
        MessageTreatment {
            priority: MessagePriority::Normal,
            execution_profile: ExecutionProfile::Business,
            durability: MessageDurability::Recoverable,
        }
    }

    /// Moved, not understood: `Normal`, `PassThrough`, `Durable`, values of
    /// this library's own choice.
    #[verifier::when_used_as_spec(spec_pass_through)]
    pub fn pass_through() -> (t: MessageTreatment)
        ensures
            t == MessageTreatment::spec_pass_through(),
    {
        MessageTreatment {
            priority: MessagePriority::Normal,
            execution_profile: ExecutionProfile::PassThrough,
            durability: MessageDurability::Durable,
        }
    }
}

impl Default for MessageTreatment {
    /// The default treatment is the business preset.
    fn default() -> (t: Self)
        ensures
            t == MessageTreatment::spec_business(),
    {
        MessageTreatment::business()
    }
}

} // verus!
