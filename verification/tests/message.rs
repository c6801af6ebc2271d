use xmip_core_message::{
    ContextValue, ExecutionProfile, Message, MessageContext, MessageCreationSource,
    MessageDurability, MessageId, MessagePriority, MessageSection, MessageTreatment, SectionId,
    Stream, StreamId,
};

fn section(stream_id: u128, bytes: &[u8]) -> MessageSection {
    MessageSection {
        section_id: SectionId::new(stream_id),
        name: Some("body".to_string()),
        stream: Stream::new(StreamId::new(stream_id), bytes.to_vec(), None),
        contract: None,
    }
}

fn received() -> Message {
    Message::received(
        MessageId::new(1),
        vec![section(10, b"<order/>")],
        MessageContext::new(),
        MessageTreatment::default(),
    )
}

#[test]
fn an_assignment_keeps_the_stream_and_advances_the_generation() {
    let first = received();
    let assigned = first.assigned(
        MessageId::new(2),
        MessageContext::new().with_value("order.id", ContextValue::Text("A-1".into())),
    );

    assert_eq!(assigned.generation(), 1);
    assert_eq!(assigned.created_by(), MessageCreationSource::Assignment);
    assert_eq!(
        first.sections()[0].stream.id(),
        assigned.sections()[0].stream.id(),
        "assignment must not produce a new Stream"
    );
}

#[test]
fn a_transformation_produces_a_new_stream() {
    let first = received();
    let transformed = first.transformed(
        MessageId::new(2),
        vec![section(11, b"<Order/>")],
        MessageContext::new(),
        MessageCreationSource::Transformation,
    );

    assert_ne!(
        first.sections()[0].stream.id(),
        transformed.sections()[0].stream.id()
    );
    assert_eq!(transformed.generation(), 1);
}

#[test]
fn the_previous_generation_is_untouched() {
    let first = received();
    let _ = first.assigned(MessageId::new(2), MessageContext::new());

    assert_eq!(first.generation(), 0);
    assert_eq!(first.previous_message_id(), None);
    assert_eq!(first.created_by(), MessageCreationSource::Receive);
}

#[test]
fn lineage_points_backwards_one_generation_at_a_time() {
    let first = received();
    let second = first.assigned(MessageId::new(2), MessageContext::new());
    let third = second.assigned(MessageId::new(3), MessageContext::new());

    assert_eq!(third.previous_message_id(), Some(second.message_id()));
    assert_eq!(second.previous_message_id(), Some(first.message_id()));
    assert_eq!(third.generation(), 2);
}

#[test]
fn treatment_survives_derivation() {
    let treatment = MessageTreatment {
        priority: MessagePriority::Background,
        execution_profile: ExecutionProfile::PassThrough,
        durability: MessageDurability::Durable,
    };
    let first = received().with_treatment(treatment);
    let second = first.assigned(MessageId::new(2), MessageContext::new());

    assert_eq!(second.treatment(), treatment);
}

#[test]
fn a_message_does_not_know_its_journey() {
    // One Message may be picked up by several Subscriptions, each opening its
    // own Journey; a Message has no journey accessor.
    let message = received();
    let _ = message.message_id();
}

#[test]
fn a_received_message_starts_a_lineage() {
    let first = received();
    assert_eq!(first.message_id(), MessageId::new(1));
    assert_eq!(first.generation(), 0);
    assert_eq!(first.previous_message_id(), None);
    assert_eq!(first.created_by(), MessageCreationSource::Receive);
    assert_eq!(first.treatment(), MessageTreatment::business());
    assert_eq!(first.sections().len(), 1);
    assert_eq!(first.sections()[0].stream.bytes(), b"<order/>");
    assert_eq!(first.context(), &MessageContext::new());
}

#[test]
fn an_assignment_carries_the_new_context_and_the_same_sections() {
    let first = received();
    let context = MessageContext::new().with_value("order.id", ContextValue::Text("A-1".into()));
    let assigned = first.assigned(MessageId::new(2), context.clone());
    assert_eq!(assigned.context(), &context);
    assert_eq!(assigned.sections(), first.sections());
    assert_eq!(assigned.message_id(), MessageId::new(2));
    assert_eq!(assigned.previous_message_id(), Some(MessageId::new(1)));
}

#[test]
fn a_transformation_takes_the_source_it_is_given_and_keeps_the_treatment() {
    let first = received().with_treatment(MessageTreatment::conversation());
    let prepared = first.transformed(
        MessageId::new(5),
        vec![section(12, b"{}"), section(13, b"[]")],
        MessageContext::new(),
        MessageCreationSource::SendPreparation,
    );
    assert_eq!(prepared.created_by(), MessageCreationSource::SendPreparation);
    assert_eq!(prepared.treatment(), MessageTreatment::conversation());
    assert_eq!(prepared.sections().len(), 2);
    assert_eq!(prepared.sections()[1].stream.id(), StreamId::new(13));
    assert_eq!(prepared.previous_message_id(), Some(MessageId::new(1)));
}

#[test]
fn generation_counts_every_change_and_treatment_changes_none() {
    let mut message = received();
    for n in 0..5u128 {
        message = message.assigned(MessageId::new(100 + n), MessageContext::new());
        message = message.with_treatment(MessageTreatment::pass_through());
    }
    assert_eq!(message.generation(), 5);
    assert_eq!(message.previous_message_id(), Some(MessageId::new(103)));
    assert_eq!(message.treatment(), MessageTreatment::pass_through());
}

#[test]
fn with_treatment_changes_nothing_else() {
    let first = received();
    let second = first.clone().with_treatment(MessageTreatment::conversation());
    assert_eq!(second.message_id(), first.message_id());
    assert_eq!(second.generation(), first.generation());
    assert_eq!(second.created_by(), first.created_by());
    assert_eq!(second.sections(), first.sections());
    assert_eq!(second.treatment(), MessageTreatment::conversation());
}

#[test]
fn the_presets() {
    assert_eq!(
        MessageTreatment::default(),
        MessageTreatment {
            priority: MessagePriority::Normal,
            execution_profile: ExecutionProfile::Business,
            durability: MessageDurability::Recoverable,
        }
    );
    assert_eq!(MessageTreatment::business(), MessageTreatment::default());
    assert_eq!(
        MessageTreatment::conversation(),
        MessageTreatment {
            priority: MessagePriority::Immediate,
            execution_profile: ExecutionProfile::Conversation,
            durability: MessageDurability::Ephemeral,
        }
    );
    assert_eq!(
        MessageTreatment::pass_through(),
        MessageTreatment {
            priority: MessagePriority::Normal,
            execution_profile: ExecutionProfile::PassThrough,
            durability: MessageDurability::Durable,
        }
    );
}

#[test]
fn a_context_keeps_its_values_in_order() {
    let a = MessageContext::new().with_value("a", ContextValue::Text("1".into()));
    let b = a.clone().with_value("b", ContextValue::Text("2".into()));
    assert_ne!(a, b);
    assert_ne!(a, MessageContext::new());
    assert_eq!(
        b,
        MessageContext::new()
            .with_value("a", ContextValue::Text("1".into()))
            .with_value("b", ContextValue::Text("2".into()))
    );
}

#[test]
fn a_stream_reports_what_it_was_made_of() {
    let stream = Stream::new(StreamId::new(9), b"abc".to_vec(), Some("text/plain".into()));
    assert_eq!(stream.id(), StreamId::new(9));
    assert_eq!(stream.bytes(), b"abc");
    assert_eq!(stream.media_type(), Some("text/plain"));
    assert_eq!(stream.len(), 3);
    assert!(!stream.is_empty());
    let empty = Stream::new(StreamId::new(10), Vec::new(), None);
    assert!(empty.is_empty());
    assert_eq!(empty.media_type(), None);
}
