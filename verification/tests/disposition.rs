use xmip_core_message::{
    admission, Action, Admission, Alignment, Arrival, Disposition, Identity, MessageAuthorization,
    OnMisalignment,
};

fn arrival() -> Arrival {
    Arrival {
        receive_location: "partner-sftp",
        transport: "sftp",
        origin_uri: "sftp://partner/in/order.xml".to_string(),
        bytes: 2048,
        action: Action::Post,
        transport_identity: Identity::Presented("acme"),
        authentication: Ok("ssh key"),
        authorization: Ok("may post"),
        message_creation: Ok("one Stream, one Section"),
        message_identity: Identity::Absent,
        alignment: Alignment::NotRequired,
        on_misalignment: OnMisalignment::Reject,
        contract: "order-v1",
        validation: Ok("order-v1 valid"),
        subscriptions: &["erp-import"],
        can_respond: false,
    }
}

fn outcome(a: &Arrival) -> Disposition {
    admission(a).disposition
}

#[test]
fn every_gate_passed_is_routed() {
    let a = arrival();
    assert_eq!(
        admission(&a),
        Admission {
            disposition: Disposition::Routed,
            message_authorization: Some(MessageAuthorization::NoMessageIdentity),
        }
    );
    assert!(Disposition::Routed.opens_journey());
}

#[test]
fn no_transport_identity_is_refused_first() {
    let a = Arrival {
        transport_identity: Identity::Absent,
        authentication: Err("no key"),
        ..arrival()
    };
    assert_eq!(
        admission(&a),
        Admission { disposition: Disposition::RefusedAtIdentification, message_authorization: None }
    );
}

#[test]
fn an_implied_identity_is_still_an_identity() {
    let a = Arrival { transport_identity: Identity::Implied("acme drop folder"), ..arrival() };
    assert_eq!(outcome(&a), Disposition::Routed);
}

#[test]
fn transport_refusals_keep_nothing() {
    let a = Arrival { authentication: Err("bad key"), authorization: Err("x"), ..arrival() };
    assert_eq!(outcome(&a), Disposition::RefusedAtAuthentication);
    let b = Arrival { authorization: Err("may not post"), message_creation: Err("x"), ..arrival() };
    assert_eq!(outcome(&b), Disposition::RefusedAtAuthorization);
    for d in [
        Disposition::RefusedAtIdentification,
        Disposition::RefusedAtAuthentication,
        Disposition::RefusedAtAuthorization,
    ] {
        assert_eq!(d.kept(), "nothing");
        assert!(!d.opens_journey());
    }
}

#[test]
fn a_failed_message_creation_keeps_the_stream() {
    let a = Arrival { message_creation: Err("not a document"), ..arrival() };
    assert_eq!(admission(&a).disposition, Disposition::RefusedAtMessageCreation);
    assert_eq!(admission(&a).message_authorization, None);
    assert_eq!(Disposition::RefusedAtMessageCreation.kept(), "Stream, by xmip-core-retain");
}

#[test]
fn a_failed_validation_keeps_the_message_and_opens_no_journey() {
    let a = Arrival { validation: Err("missing order id"), can_respond: true, ..arrival() };
    assert_eq!(outcome(&a), Disposition::StoredAtValidation);
    assert_eq!(Disposition::StoredAtValidation.kept(), "Message, by xmip-core-retain");
    assert!(!Disposition::StoredAtValidation.opens_journey());
}

#[test]
fn no_subscription_goes_to_the_dead_message_queue() {
    let a = Arrival { subscriptions: &[], ..arrival() };
    assert_eq!(outcome(&a), Disposition::DeadMessageQueue);
    assert_eq!(Disposition::DeadMessageQueue.kept(), "Message, in the Xmip DMQ");
    assert!(Disposition::DeadMessageQueue.opens_journey());
    assert_eq!(Disposition::Routed.kept(), "Message, owned by Xmip");
}

#[test]
fn identities_not_compared_never_refuse() {
    let a = Arrival {
        message_identity: Identity::Presented("someone else"),
        alignment: Alignment::NotRequired,
        on_misalignment: OnMisalignment::Reject,
        ..arrival()
    };
    assert_eq!(
        admission(&a),
        Admission {
            disposition: Disposition::Routed,
            message_authorization: Some(MessageAuthorization::NotCompared),
        }
    );
}

#[test]
fn aligned_identities_pass() {
    for alignment in [Alignment::Relaxed, Alignment::Strict] {
        let a = Arrival {
            message_identity: Identity::Implied("acme"),
            alignment,
            ..arrival()
        };
        assert_eq!(admission(&a).message_authorization, Some(MessageAuthorization::Aligned));
        assert_eq!(outcome(&a), Disposition::Routed);
    }
}

#[test]
fn a_misalignment_is_accepted_quarantined_or_rejected() {
    let misaligned = |on_misalignment| Arrival {
        message_identity: Identity::Presented("globex"),
        alignment: Alignment::Strict,
        on_misalignment,
        ..arrival()
    };
    assert_eq!(
        admission(&misaligned(OnMisalignment::Accept)),
        Admission {
            disposition: Disposition::Routed,
            message_authorization: Some(MessageAuthorization::MisalignedAccepted),
        }
    );
    assert_eq!(
        admission(&misaligned(OnMisalignment::Quarantine)),
        Admission {
            disposition: Disposition::Routed,
            message_authorization: Some(MessageAuthorization::MisalignedQuarantined),
        }
    );
    assert_eq!(
        admission(&misaligned(OnMisalignment::Reject)),
        Admission {
            disposition: Disposition::RefusedAtAuthorization,
            message_authorization: Some(MessageAuthorization::MisalignedRejected),
        }
    );
}

#[test]
fn a_rejected_misalignment_comes_before_validation() {
    let a = Arrival {
        message_identity: Identity::Presented("globex"),
        alignment: Alignment::Relaxed,
        on_misalignment: OnMisalignment::Reject,
        validation: Err("invalid"),
        ..arrival()
    };
    assert_eq!(outcome(&a), Disposition::RefusedAtAuthorization);
}

#[test]
fn actions_are_named() {
    assert_eq!(Action::Send.name(), "send");
    assert_eq!(Action::Post.name(), "post");
    assert_eq!(Action::Poll.name(), "poll");
}
