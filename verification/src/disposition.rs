//! Ingress and message disposition: which gate an incoming Stream meets last,
//! and what Xmip keeps of it.
//!
//! Transport security runs first, always, and before any content is read.
//! Message creation follows; message security is optional and separate;
//! validation comes before any Journey exists; routing happens within the
//! Journey. Every refusal states what Xmip kept.

use vstd::prelude::*;

use crate::text::same_text;

verus! {

/// Where an identity came from, if anywhere.
#[derive(Clone, Copy, Debug, PartialEq, Eq)]
pub enum Identity {
    /// Nothing presented by the caller, nothing implied by the Receive Location.
    Absent,
    /// Implied by the Receive Location itself, such as a partner drop folder.
    /// Still an identity: the path, the permissions and the account that could
    /// write there are the evidence.
    Implied(&'static str),
    /// Presented by the caller.
    Presented(&'static str),
}

/// Whether the transport identity and the message identity must resolve to
/// the same party.
#[derive(Clone, Copy, Debug, PartialEq, Eq)]
pub enum Alignment {
    /// Record both, never compare. The relaying case, and the default: a
    /// default of Strict refuses every VAN, gateway and broker on day one.
    NotRequired,
    /// The same party through a different endpoint, matched at the party.
    Relaxed,
    /// Transport credential and message identity must name the same party.
    Strict,
}

/// What to do when alignment is required and fails.
#[derive(Clone, Copy, Debug, PartialEq, Eq)]
pub enum OnMisalignment {
    Accept,
    Quarantine,
    Reject,
}

/// What the caller is attempting against Xmip.
#[derive(Clone, Copy, Debug, PartialEq, Eq)]
pub enum Action {
    Send,
    Post,
    Poll,
}

impl Action {
    /// The action as the log names it.
    pub open spec fn spec_name(self) -> Seq<char> {
        match self {
            Action::Send => "send"@,
            Action::Post => "post"@,
            Action::Poll => "poll"@,
        }
    }

    pub fn name(&self) -> (n: &'static str)
        ensures
            n@ == self.spec_name(),
    {
        match self {
            Action::Send => "send",
            Action::Post => "post",
            Action::Poll => "poll",
        }
    }
}

/// One incoming Stream and the outcome of every gate it meets.
pub struct Arrival {
    pub receive_location: &'static str,
    pub transport: &'static str,
    pub origin_uri: String,
    pub bytes: usize,
    pub action: Action,
    /// Who opened the connection. Mandatory: transport security runs before
    /// Message creation, so Xmip never parses content from an unauthorized
    /// sender.
    pub transport_identity: Identity,
    pub authentication: Result<&'static str, &'static str>,
    pub authorization: Result<&'static str, &'static str>,
    pub message_creation: Result<&'static str, &'static str>,
    /// On whose behalf the content was produced. Optional, and read only after
    /// Message creation, which is what separates the two layers.
    pub message_identity: Identity,
    pub alignment: Alignment,
    pub on_misalignment: OnMisalignment,
    pub contract: &'static str,
    pub validation: Result<&'static str, &'static str>,
    pub subscriptions: &'static [&'static str],
    pub can_respond: bool,
}

/// What Xmip did with the Stream, and what it kept.
#[derive(Clone, Copy, Debug, PartialEq, Eq, Structural)]
pub enum Disposition {
    RefusedAtIdentification,
    RefusedAtAuthentication,
    RefusedAtAuthorization,
    RefusedAtMessageCreation,
    StoredAtValidation,
    DeadMessageQueue,
    Routed,
}

impl Disposition {
    /// What Xmip retained.
    pub open spec fn spec_kept(self) -> Seq<char> {
        match self {
            Disposition::RefusedAtIdentification => "nothing"@,
            Disposition::RefusedAtAuthentication => "nothing"@,
            Disposition::RefusedAtAuthorization => "nothing"@,
            Disposition::RefusedAtMessageCreation => "Stream, by xmip-core-retain"@,
            Disposition::StoredAtValidation => "Message, by xmip-core-retain"@,
            Disposition::DeadMessageQueue => "Message, in the Xmip DMQ"@,
            Disposition::Routed => "Message, owned by Xmip"@,
        }
    }

    /// Whether a Journey exists after this disposition: only once validation
    /// has passed.
    pub open spec fn spec_opens_journey(self) -> bool {
        self is DeadMessageQueue || self is Routed
    }

    /// What Xmip retained. This is the column that matters. A refusal at
    /// authorization answers "nothing" whether transport authorization or a
    /// rejected misalignment refused; the latter also leaves the Message
    /// under retention, which this column does not tell apart.
    pub fn kept(&self) -> (k: &'static str)
        ensures
            k@ == self.spec_kept(),
    {
        match self {
            Disposition::RefusedAtIdentification => "nothing",
            Disposition::RefusedAtAuthentication => "nothing",
            Disposition::RefusedAtAuthorization => "nothing",
            Disposition::RefusedAtMessageCreation => "Stream, by xmip-core-retain",
            Disposition::StoredAtValidation => "Message, by xmip-core-retain",
            Disposition::DeadMessageQueue => "Message, in the Xmip DMQ",
            Disposition::Routed => "Message, owned by Xmip",
        }
    }

    /// Whether a Journey was created for the Stream.
    pub fn opens_journey(&self) -> (j: bool)
        ensures
            j == self.spec_opens_journey(),
    {
        match self {
            Disposition::DeadMessageQueue | Disposition::Routed => true,
            _ => false,
        }
    }
}

/// What message security made of the message identity.
#[derive(Clone, Copy, Debug, PartialEq, Eq, Structural)]
pub enum MessageAuthorization {
    /// No message identity: the transport identity decides.
    NoMessageIdentity,
    /// Alignment is not required: both identities recorded, never compared.
    NotCompared,
    /// Both identities name the same party.
    Aligned,
    /// Misaligned, and accepted: the misalignment is recorded and audited.
    MisalignedAccepted,
    /// Misaligned, and quarantined: both identities are recorded for the
    /// DMQ, and the Arrival still goes on to validation and routing, which
    /// decide its disposition.
    MisalignedQuarantined,
    /// Misaligned, and rejected.
    MisalignedRejected,
}

/// The outcome of every gate an Arrival met.
#[derive(Clone, Copy, Debug, PartialEq, Eq, Structural)]
pub struct Admission {
    pub disposition: Disposition,
    /// What message security decided, when the Arrival got that far.
    pub message_authorization: Option<MessageAuthorization>,
}

/// The name an identity gives, if it gives one.
pub open spec fn identity_name(i: Identity) -> Option<Seq<char>> {
    match i {
        Identity::Absent => None,
        Identity::Implied(who) => Some(who@),
        Identity::Presented(who) => Some(who@),
    }
}

/// Whether the transport identity and the message identity `who` align as
/// the Arrival's alignment requires.
pub open spec fn aligned(a: Arrival, who: Seq<char>) -> bool {
    match a.alignment {
        Alignment::NotRequired => true,
        _ => match identity_name(a.transport_identity) {
            None => true,
            Some(t) => t == who,
        },
    }
}

/// What message security decides for an Arrival that reached it.
pub open spec fn message_authorization_of(a: Arrival) -> MessageAuthorization {
    match identity_name(a.message_identity) {
        None => MessageAuthorization::NoMessageIdentity,
        Some(who) => if a.alignment is NotRequired {
            MessageAuthorization::NotCompared
        } else if aligned(a, who) {
            MessageAuthorization::Aligned
        } else {
            match a.on_misalignment {
                OnMisalignment::Accept => MessageAuthorization::MisalignedAccepted,
                OnMisalignment::Quarantine => MessageAuthorization::MisalignedQuarantined,
                OnMisalignment::Reject => MessageAuthorization::MisalignedRejected,
            }
        },
    }
}

/// Whether the Arrival passes transport security and Message creation, and so
/// reaches message security.
pub open spec fn reaches_message_security(a: Arrival) -> bool {
    &&& !(a.transport_identity is Absent)
    &&& a.authentication is Ok
    &&& a.authorization is Ok
    &&& a.message_creation is Ok
}

/// The disposition of an Arrival: the first gate that refuses it decides, in
/// the order transport identification, transport authentication, transport
/// authorization, Message creation, message authorization, validation; past
/// every gate, it is routed when a subscription matches and dead-lettered
/// when none does.
pub open spec fn disposition_of(a: Arrival) -> Disposition {
    if a.transport_identity is Absent {
        Disposition::RefusedAtIdentification
    } else if a.authentication is Err {
        Disposition::RefusedAtAuthentication
    } else if a.authorization is Err {
        Disposition::RefusedAtAuthorization
    } else if a.message_creation is Err {
        Disposition::RefusedAtMessageCreation
    } else if message_authorization_of(a) is MisalignedRejected {
        Disposition::RefusedAtAuthorization
    } else if a.validation is Err {
        Disposition::StoredAtValidation
    } else if a.subscriptions@.len() == 0 {
        Disposition::DeadMessageQueue
    } else {
        Disposition::Routed
    }
}

/// Message security for an Arrival: whether its two identities align, and
/// what is done when they do not.
pub fn message_authorization(a: &Arrival) -> (m: MessageAuthorization)
    ensures
        m == message_authorization_of(*a),
{
    match a.message_identity {
        Identity::Absent => MessageAuthorization::NoMessageIdentity,
        Identity::Implied(who) | Identity::Presented(who) => {
            let is_aligned = match a.alignment {
                Alignment::NotRequired => true,
                Alignment::Relaxed | Alignment::Strict => match a.transport_identity {
                    Identity::Absent => true,
                    Identity::Implied(t) | Identity::Presented(t) => same_text(t, who),
                },
            };
            if matches!(a.alignment, Alignment::NotRequired) {
                MessageAuthorization::NotCompared
            } else if is_aligned {
                MessageAuthorization::Aligned
            } else {
                match a.on_misalignment {
                    OnMisalignment::Accept => MessageAuthorization::MisalignedAccepted,
                    OnMisalignment::Quarantine => MessageAuthorization::MisalignedQuarantined,
                    OnMisalignment::Reject => MessageAuthorization::MisalignedRejected,
                }
            }
        },
    }
}

/// Walks an Arrival through the lifecycle: transport security, Message
/// creation, message security, validation and routing.
pub fn admission(a: &Arrival) -> (r: Admission)
    ensures
        r.disposition == disposition_of(*a),
        r.message_authorization == if reaches_message_security(*a) {
            Some(message_authorization_of(*a))
        } else {
            None
        },
{
    // Steps 1 to 3: transport security, before any content is read.
    if matches!(a.transport_identity, Identity::Absent) {
        return Admission {
            disposition: Disposition::RefusedAtIdentification,
            message_authorization: None,
        };
    }
    if a.authentication.is_err() {
        return Admission {
            disposition: Disposition::RefusedAtAuthentication,
            message_authorization: None,
        };
    }
    if a.authorization.is_err() {
        return Admission {
            disposition: Disposition::RefusedAtAuthorization,
            message_authorization: None,
        };
    }
    // Step 4: Message creation. Nothing before this point parsed any content.
    if a.message_creation.is_err() {
        return Admission {
            disposition: Disposition::RefusedAtMessageCreation,
            message_authorization: None,
        };
    }
    // Steps 7 to 9: message security, optional and separate.
    let m = message_authorization(a);
    if matches!(m, MessageAuthorization::MisalignedRejected) {
        return Admission {
            disposition: Disposition::RefusedAtAuthorization,
            message_authorization: Some(m),
        };
    }
    // Step 12: validation. A failure here stops before any Journey exists.
    if a.validation.is_err() {
        return Admission {
            disposition: Disposition::StoredAtValidation,
            message_authorization: Some(m),
        };
    }
    // Step 13 on: one Journey, and routing within it.
    if a.subscriptions.len() == 0 {
        Admission { disposition: Disposition::DeadMessageQueue, message_authorization: Some(m) }
    } else {
        Admission { disposition: Disposition::Routed, message_authorization: Some(m) }
    }
}

/// A refusal by transport security keeps nothing and opens no Journey: no
/// content was read before it.
pub proof fn law_a_transport_refusal_keeps_nothing(a: Arrival)
    requires
        a.transport_identity is Absent || a.authentication is Err || a.authorization is Err,
    ensures
        disposition_of(a).spec_kept() == "nothing"@,
        !disposition_of(a).spec_opens_journey(),
{
}

/// A Journey exists only for an Arrival that passed every gate: transport
/// security, Message creation, message authorization and validation.
pub proof fn law_a_journey_only_after_every_gate(a: Arrival)
    requires
        disposition_of(a).spec_opens_journey(),
    ensures
        reaches_message_security(a),
        !(message_authorization_of(a) is MisalignedRejected),
        a.validation is Ok,
        disposition_of(a) is Routed <==> a.subscriptions@.len() > 0,
{
}

/// When alignment is not required, both identities are recorded and never
/// compared: the message identity, and what a misalignment would do, change
/// nothing about the disposition.
pub proof fn law_identities_not_compared_change_nothing(
    a: Arrival,
    message_identity: Identity,
    on_misalignment: OnMisalignment,
)
    requires
        a.alignment is NotRequired,
    ensures
        disposition_of(Arrival { message_identity, on_misalignment, ..a }) == disposition_of(a),
{
}

/// Without a message identity the transport identity decides: the alignment
/// policy changes nothing about the disposition.
pub proof fn law_without_message_identity_transport_decides(
    a: Arrival,
    alignment: Alignment,
    on_misalignment: OnMisalignment,
)
    requires
        a.message_identity is Absent,
    ensures
        disposition_of(Arrival { alignment, on_misalignment, ..a }) == disposition_of(a),
{
}

/// Past transport security and Message creation, the only refusal at
/// authorization is a required alignment that fails under `Reject`.
pub proof fn law_only_a_rejected_misalignment_refuses_the_message(a: Arrival)
    requires
        reaches_message_security(a),
        disposition_of(a) is RefusedAtAuthorization,
    ensures
        !(a.message_identity is Absent),
        !(a.alignment is NotRequired),
        a.on_misalignment is Reject,
        !aligned(a, identity_name(a.message_identity)->0),
{
}

/// Under a required alignment, a transport identity and a message identity
/// that name different parties are misaligned, whether each was implied or
/// presented: the Arrival is accepted, quarantined or rejected as
/// `on_misalignment` says, never aligned; and a rejection refuses the Arrival
/// at authorization once transport security and Message creation passed.
pub proof fn law_different_parties_are_misaligned(a: Arrival, t: &'static str, w: &'static str)
    requires
        a.alignment == Alignment::Relaxed || a.alignment == Alignment::Strict,
        a.transport_identity == Identity::Implied(t) || a.transport_identity
            == Identity::Presented(t),
        a.message_identity == Identity::Implied(w) || a.message_identity == Identity::Presented(w),
        t@ != w@,
    ensures
        a.on_misalignment == OnMisalignment::Accept ==> message_authorization_of(a)
            == MessageAuthorization::MisalignedAccepted,
        a.on_misalignment == OnMisalignment::Quarantine ==> message_authorization_of(a)
            == MessageAuthorization::MisalignedQuarantined,
        a.on_misalignment == OnMisalignment::Reject ==> message_authorization_of(a)
            == MessageAuthorization::MisalignedRejected,
        message_authorization_of(a) != MessageAuthorization::Aligned,
        a.on_misalignment == OnMisalignment::Reject && a.authentication is Ok && a.authorization is Ok
            && a.message_creation is Ok ==> disposition_of(a) == Disposition::RefusedAtAuthorization,
{
}

/// Under a required alignment, a transport identity and a message identity
/// that name the same party align, whether each was implied or presented.
pub proof fn law_the_same_party_is_aligned(a: Arrival, t: &'static str, w: &'static str)
    requires
        a.alignment == Alignment::Relaxed || a.alignment == Alignment::Strict,
        a.transport_identity == Identity::Implied(t) || a.transport_identity
            == Identity::Presented(t),
        a.message_identity == Identity::Implied(w) || a.message_identity == Identity::Presented(w),
        t@ == w@,
    ensures
        message_authorization_of(a) == MessageAuthorization::Aligned,
{
}

/// An implied identity is still an identity: an Arrival whose transport or
/// message identity is implied gets the same message authorization and the
/// same disposition as the same Arrival with that name presented.
pub proof fn law_an_implied_identity_is_an_identity(a: Arrival, name: &'static str)
    ensures
        message_authorization_of(Arrival { transport_identity: Identity::Implied(name), ..a })
            == message_authorization_of(Arrival { transport_identity: Identity::Presented(name), ..a }),
        disposition_of(Arrival { transport_identity: Identity::Implied(name), ..a })
            == disposition_of(Arrival { transport_identity: Identity::Presented(name), ..a }),
        message_authorization_of(Arrival { message_identity: Identity::Implied(name), ..a })
            == message_authorization_of(Arrival { message_identity: Identity::Presented(name), ..a }),
        disposition_of(Arrival { message_identity: Identity::Implied(name), ..a })
            == disposition_of(Arrival { message_identity: Identity::Presented(name), ..a }),
{
}

/// Each disposition and the gates that lead to it: transport identification,
/// transport authentication, transport authorization, Message creation,
/// message authorization, validation, then routing by subscription.
pub proof fn law_each_disposition_and_its_gates(a: Arrival)
    ensures
        disposition_of(a) == Disposition::RefusedAtIdentification <==> a.transport_identity
            == Identity::Absent,
        disposition_of(a) == Disposition::RefusedAtAuthentication <==> a.transport_identity
            != Identity::Absent && a.authentication is Err,
        disposition_of(a) == Disposition::RefusedAtAuthorization <==> a.transport_identity
            != Identity::Absent && a.authentication is Ok && (a.authorization is Err || (
        a.message_creation is Ok && message_authorization_of(a)
            == MessageAuthorization::MisalignedRejected)),
        disposition_of(a) == Disposition::RefusedAtMessageCreation <==> a.transport_identity
            != Identity::Absent && a.authentication is Ok && a.authorization is Ok
            && a.message_creation is Err,
        disposition_of(a) == Disposition::StoredAtValidation <==> a.transport_identity
            != Identity::Absent && a.authentication is Ok && a.authorization is Ok
            && a.message_creation is Ok && message_authorization_of(a)
            != MessageAuthorization::MisalignedRejected && a.validation is Err,
        disposition_of(a) == Disposition::DeadMessageQueue <==> a.transport_identity
            != Identity::Absent && a.authentication is Ok && a.authorization is Ok
            && a.message_creation is Ok && message_authorization_of(a)
            != MessageAuthorization::MisalignedRejected && a.validation is Ok
            && a.subscriptions@.len() == 0,
        disposition_of(a) == Disposition::Routed <==> a.transport_identity != Identity::Absent
            && a.authentication is Ok && a.authorization is Ok && a.message_creation is Ok
            && message_authorization_of(a) != MessageAuthorization::MisalignedRejected
            && a.validation is Ok && a.subscriptions@.len() > 0,
{
}

/// Whether the transport can carry a reply changes only what the caller is
/// told, never the disposition.
pub proof fn law_a_reply_channel_changes_no_disposition(a: Arrival, can_respond: bool)
    ensures
        disposition_of(Arrival { can_respond, ..a }) == disposition_of(a),
{
}

} // verus!
