//! The Message and its lineage.
//!
//! A Message has an identity, a context and one or more Sections, each over a
//! Stream. It carries its generation, what created it and its treatment. A
//! Message does not know its Journey: Journeys reference Messages, never the
//! reverse.

use std::sync::Arc;

use vstd::prelude::*;

use crate::context::MessageContext;
use crate::ids::{MessageId, SectionId};
use crate::stream::Stream;
use crate::treatment::MessageTreatment;

verus! {

/// What produced this Message.
///
/// `Assignment` and `Transformation` are the two that end a generation.
/// Assignment changes metadata and keeps the content; Transformation produces
/// new content and therefore a new Stream.
#[derive(Clone, Copy, Debug, PartialEq, Eq, Structural)]
pub enum MessageCreationSource {
    Receive,
    Assignment,
    Transformation,
    SendPreparation,
}

/// One addressable part of a Message, over one Stream.
#[derive(Clone, Debug, PartialEq, Eq)]
pub struct MessageSection {
    pub section_id: SectionId,
    pub name: Option<String>,
    pub stream: Stream,
    pub contract: Option<String>,
}

/// A processing unit over immutable content.
#[derive(Debug, PartialEq)]
pub struct Message {
    message_id: MessageId,
    previous_message_id: Option<MessageId>,
    generation: u32,
    created_by: MessageCreationSource,
    treatment: MessageTreatment,
    sections: Arc<Vec<MessageSection>>,
    context: Arc<MessageContext>,
}

/// What a Message is: its identity, its lineage and what it carries.
pub struct MessageView {
    pub message_id: MessageId,
    pub previous_message_id: Option<MessageId>,
    pub generation: nat,
    pub created_by: MessageCreationSource,
    pub treatment: MessageTreatment,
    pub sections: Seq<MessageSection>,
    pub context: MessageContext,
}

impl Message {
    /// A Message has one or more Sections.
    #[verifier::type_invariant]
    spec fn has_sections(self) -> bool {
        self.sections@.len() >= 1
    }
}

impl Clone for Message {
    /// The same Message, sharing its Sections and its context.
    fn clone(&self) -> (m: Message)
        ensures
            m@ == self@,
    {
        proof {
            use_type_invariant(self);
        }
        Message {
            message_id: self.message_id,
            previous_message_id: self.previous_message_id,
            generation: self.generation,
            created_by: self.created_by,
            treatment: self.treatment,
            sections: share(&self.sections),
            context: share(&self.context),
        }
    }
}

impl View for Message {
    type V = MessageView;

    closed spec fn view(&self) -> MessageView {
        MessageView {
            message_id: self.message_id,
            previous_message_id: self.previous_message_id,
            generation: self.generation as nat,
            created_by: self.created_by,
            treatment: self.treatment,
            sections: self.sections@,
            context: *self.context,
        }
    }
}

/// A Message that starts a lineage: generation zero, no predecessor.
pub open spec fn received_message(
    message_id: MessageId,
    sections: Seq<MessageSection>,
    context: MessageContext,
    treatment: MessageTreatment,
) -> MessageView {
    MessageView {
        message_id,
        previous_message_id: None,
        generation: 0,
        created_by: MessageCreationSource::Receive,
        treatment,
        sections,
        context,
    }
}

impl MessageView {
    /// Whether a next generation can be counted.
    pub open spec fn derivable(self) -> bool {
        self.generation < u32::MAX
    }

    /// New content: the next generation, over new Sections, linked back to
    /// this one, with the same treatment.
    pub open spec fn transformed(
        self,
        message_id: MessageId,
        sections: Seq<MessageSection>,
        context: MessageContext,
        created_by: MessageCreationSource,
    ) -> MessageView {
        MessageView {
            message_id,
            previous_message_id: Some(self.message_id),
            generation: self.generation + 1,
            created_by,
            treatment: self.treatment,
            sections,
            context,
        }
    }

    /// New metadata over the same content: the next generation, over the same
    /// Sections, linked back to this one, with the same treatment.
    pub open spec fn assigned(self, message_id: MessageId, context: MessageContext) -> MessageView {
        MessageView {
            message_id,
            previous_message_id: Some(self.message_id),
            generation: self.generation + 1,
            created_by: MessageCreationSource::Assignment,
            treatment: self.treatment,
            sections: self.sections,
            context,
        }
    }

    /// The same Message under another treatment.
    pub open spec fn with_treatment(self, treatment: MessageTreatment) -> MessageView {
        MessageView { treatment, ..self }
    }
}

/// `<Arc<T> as Clone>::clone`: another pointer to the same allocation.
#[verifier::external_body]
fn share<T>(a: &Arc<T>) -> (r: Arc<T>)
    ensures
        r == *a,
{
    Arc::clone(a)
}

impl Message {
    /// A Message that starts a lineage. Generation zero, no predecessor.
    pub fn received(
        message_id: MessageId,
        sections: Vec<MessageSection>,
        context: MessageContext,
        treatment: MessageTreatment,
    ) -> (m: Message)
        requires
            sections@.len() >= 1,
        ensures
            m@ == received_message(message_id, sections@, context, treatment),
    {
        Message {
            message_id,
            previous_message_id: None,
            generation: 0,
            created_by: MessageCreationSource::Receive,
            treatment,
            sections: Arc::new(sections),
            context: Arc::new(context),
        }
    }

    pub fn message_id(&self) -> (id: MessageId)
        ensures
            id == self@.message_id,
    {
        self.message_id
    }

    /// The Message this one was derived from, if any: generation lineage
    /// within one publication, not the Journey chain.
    pub fn previous_message_id(&self) -> (id: Option<MessageId>)
        ensures
            id == self@.previous_message_id,
    {
        self.previous_message_id
    }

    /// How many times content or metadata has changed since Receive.
    pub fn generation(&self) -> (g: u32)
        ensures
            g == self@.generation,
    {
        self.generation
    }

    pub fn created_by(&self) -> (c: MessageCreationSource)
        ensures
            c == self@.created_by,
    {
        self.created_by
    }

    pub fn treatment(&self) -> (t: MessageTreatment)
        ensures
            t == self@.treatment,
    {
        self.treatment
    }

    /// The Sections: one or more.
    pub fn sections(&self) -> (s: &[MessageSection])
        ensures
            s@ == self@.sections,
            s@.len() >= 1,
    {
        proof {
            use_type_invariant(self);
        }
        self.sections.as_slice()
    }

    pub fn context(&self) -> (c: &MessageContext)
        ensures
            *c == self@.context,
    {
        &self.context
    }

    /// New content: a Transformation, or a Send preparation that rewrites.
    ///
    /// The Sections are new because their Streams are new. Nothing was
    /// edited: the previous generation is still exactly as it was.
    pub fn transformed(
        &self,
        message_id: MessageId,
        sections: Vec<MessageSection>,
        context: MessageContext,
        created_by: MessageCreationSource,
    ) -> (m: Message)
        requires
            self@.derivable(),
            sections@.len() >= 1,
        ensures
            m@ == self@.transformed(message_id, sections@, context, created_by),
    {
        Message {
            message_id,
            previous_message_id: Some(self.message_id),
            generation: self.generation + 1,
            created_by,
            treatment: self.treatment,
            sections: Arc::new(sections),
            context: Arc::new(context),
        }
    }

    /// New metadata over the same content: an Assignment.
    ///
    /// The Sections are shared with the previous generation rather than
    /// copied, which is the payoff for the Stream being immutable.
    pub fn assigned(&self, message_id: MessageId, context: MessageContext) -> (m: Message)
        requires
            self@.derivable(),
        ensures
            m@ == self@.assigned(message_id, context),
    {
        proof {
            use_type_invariant(self);
        }
        Message {
            message_id,
            previous_message_id: Some(self.message_id),
            generation: self.generation + 1,
            created_by: MessageCreationSource::Assignment,
            treatment: self.treatment,
            sections: share(&self.sections),
            context: Arc::new(context),
        }
    }

    /// Treatment is declared once and carried, not re-decided per generation.
    pub fn with_treatment(self, treatment: MessageTreatment) -> (m: Message)
        ensures
            m@ == self@.with_treatment(treatment),
    {
        proof {
            use_type_invariant(&self);
        }
        Message { treatment, ..self }
    }
}

/// One step from a Message to the next one in its lineage.
pub enum Derivation {
    /// New metadata over the same content.
    Assignment { message_id: MessageId, context: MessageContext },
    /// New content.
    Transformation {
        message_id: MessageId,
        sections: Seq<MessageSection>,
        context: MessageContext,
        created_by: MessageCreationSource,
    },
    /// The same Message under another treatment.
    Retreatment { treatment: MessageTreatment },
}

impl Derivation {
    /// Whether this step makes a new generation.
    pub open spec fn is_generation(self) -> bool {
        !(self is Retreatment)
    }
}

/// The Message that one step makes of `m`.
pub open spec fn derive(m: MessageView, d: Derivation) -> MessageView {
    match d {
        Derivation::Assignment { message_id, context } => m.assigned(message_id, context),
        Derivation::Transformation { message_id, sections, context, created_by } => m.transformed(
            message_id,
            sections,
            context,
            created_by,
        ),
        Derivation::Retreatment { treatment } => m.with_treatment(treatment),
    }
}

/// The Message that a sequence of steps makes of `m`, first step first.
pub open spec fn lineage(m: MessageView, steps: Seq<Derivation>) -> MessageView
    decreases steps.len(),
{
    if steps.len() == 0 {
        m
    } else {
        derive(lineage(m, steps.drop_last()), steps.last())
    }
}

/// How many of the steps make a new generation.
pub open spec fn generations(steps: Seq<Derivation>) -> nat
    decreases steps.len(),
{
    if steps.len() == 0 {
        0
    } else {
        generations(steps.drop_last()) + if steps.last().is_generation() {
            1nat
        } else {
            0nat
        }
    }
}

/// An Assignment or a Transformation makes the next generation: it counts one
/// more change, points back at the Message it came from and keeps its
/// treatment.
pub proof fn law_a_derivation_is_the_next_generation(m: MessageView, d: Derivation)
    requires
        d.is_generation(),
    ensures
        derive(m, d).generation == m.generation + 1,
        derive(m, d).previous_message_id == Some(m.message_id),
        derive(m, d).treatment == m.treatment,
{
}

/// An Assignment keeps the content: the Sections, and so the Streams, are
/// those of the previous generation. A Transformation carries the new ones.
pub proof fn law_assignment_keeps_the_content(
    m: MessageView,
    message_id: MessageId,
    context: MessageContext,
    sections: Seq<MessageSection>,
    created_by: MessageCreationSource,
)
    ensures
        m.assigned(message_id, context).sections == m.sections,
        m.assigned(message_id, context).created_by == MessageCreationSource::Assignment,
        m.transformed(message_id, sections, context, created_by).sections == sections,
{
}

/// The generation counts the changes of content or metadata: after any
/// sequence of steps it has grown by the number of Assignments and
/// Transformations among them, and a Message received has generation zero.
pub proof fn law_generation_counts_the_changes(m: MessageView, steps: Seq<Derivation>)
    ensures
        lineage(m, steps).generation == m.generation + generations(steps),
    decreases steps.len(),
{
    if steps.len() > 0 {
        law_generation_counts_the_changes(m, steps.drop_last());
    }
}

/// Treatment is declared once and carried: through any sequence of
/// Assignments and Transformations it stays what was declared.
pub proof fn law_treatment_survives_derivation(
    m: MessageView,
    treatment: MessageTreatment,
    steps: Seq<Derivation>,
)
    requires
        forall|i: int| 0 <= i < steps.len() ==> (#[trigger] steps[i]).is_generation(),
    ensures
        lineage(m.with_treatment(treatment), steps).treatment == treatment,
    decreases steps.len(),
{
    if steps.len() > 0 {
        assert forall|i: int| 0 <= i < steps.drop_last().len() implies (
        #[trigger] steps.drop_last()[i]).is_generation() by {
            assert(steps.drop_last()[i] == steps[i]);
        }
        law_treatment_survives_derivation(m, treatment, steps.drop_last());
        assert(steps.last().is_generation());
    }
}

/// Declaring a treatment changes nothing else: not the identity, not the
/// lineage, not the content.
pub proof fn law_treatment_changes_nothing_else(m: MessageView, treatment: MessageTreatment)
    ensures
        m.with_treatment(treatment).treatment == treatment,
        m.with_treatment(treatment).message_id == m.message_id,
        m.with_treatment(treatment).previous_message_id == m.previous_message_id,
        m.with_treatment(treatment).generation == m.generation,
        m.with_treatment(treatment).created_by == m.created_by,
        m.with_treatment(treatment).sections == m.sections,
        m.with_treatment(treatment).context == m.context,
{
}

/// Lineage points backwards one generation at a time: after an Assignment or
/// a Transformation, the previous Message is the one the step was taken from.
pub proof fn law_lineage_points_backwards(m: MessageView, steps: Seq<Derivation>)
    requires
        steps.len() > 0,
        steps.last().is_generation(),
    ensures
        lineage(m, steps).previous_message_id == Some(lineage(m, steps.drop_last()).message_id),
        lineage(m, steps).generation == lineage(m, steps.drop_last()).generation + 1,
{
}

/// A received Message starts a lineage with exactly what it was given: its
/// id, its Sections, its context and its treatment, at generation zero, with
/// no predecessor, created by Receive.
pub proof fn law_a_received_message_holds_what_it_was_given(
    message_id: MessageId,
    sections: Seq<MessageSection>,
    context: MessageContext,
    treatment: MessageTreatment,
)
    ensures
        received_message(message_id, sections, context, treatment).message_id == message_id,
        received_message(message_id, sections, context, treatment).previous_message_id is None,
        received_message(message_id, sections, context, treatment).generation == 0,
        received_message(message_id, sections, context, treatment).created_by
            == MessageCreationSource::Receive,
        received_message(message_id, sections, context, treatment).treatment == treatment,
        received_message(message_id, sections, context, treatment).sections == sections,
        received_message(message_id, sections, context, treatment).context == context,
{
}

/// A Transformation carries what it is given: the new id, the new Sections,
/// the new context and the creation source; it points back at the Message it
/// came from, one generation on, under the same treatment.
pub proof fn law_a_transformation_carries_what_it_is_given(
    m: MessageView,
    message_id: MessageId,
    sections: Seq<MessageSection>,
    context: MessageContext,
    created_by: MessageCreationSource,
)
    ensures
        m.transformed(message_id, sections, context, created_by).message_id == message_id,
        m.transformed(message_id, sections, context, created_by).previous_message_id == Some(
            m.message_id,
        ),
        m.transformed(message_id, sections, context, created_by).generation == m.generation + 1,
        m.transformed(message_id, sections, context, created_by).created_by == created_by,
        m.transformed(message_id, sections, context, created_by).treatment == m.treatment,
        m.transformed(message_id, sections, context, created_by).sections == sections,
        m.transformed(message_id, sections, context, created_by).context == context,
{
}

/// An Assignment carries what it is given: the new id and the new context;
/// it points back at the Message it came from, one generation on, over the
/// same Sections and under the same treatment.
pub proof fn law_an_assignment_carries_what_it_is_given(
    m: MessageView,
    message_id: MessageId,
    context: MessageContext,
)
    ensures
        m.assigned(message_id, context).message_id == message_id,
        m.assigned(message_id, context).previous_message_id == Some(m.message_id),
        m.assigned(message_id, context).generation == m.generation + 1,
        m.assigned(message_id, context).created_by == MessageCreationSource::Assignment,
        m.assigned(message_id, context).treatment == m.treatment,
        m.assigned(message_id, context).sections == m.sections,
        m.assigned(message_id, context).context == context,
{
}

} // verus!
