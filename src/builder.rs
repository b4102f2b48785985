//! A builder that collects an envelope's fields and checks at `build` that
//! the required ones were set.
use crate::enums::{DeliveryProfile, MsgClass, SigAlg};
use crate::ids::{
    is_token, new_idempotency_key, new_transaction_id, DeviceId, IdempotencyKey, InstanceId,
    TransactionId,
};
use crate::types::{Envelope, Payload, EXPECTED_PROTO_VER};
use vstd::prelude::*;

verus! {

/// A field that must be set before an envelope can be built.
#[derive(Clone, Copy, Debug, PartialEq, Eq, Structural)]
pub enum RequiredField {
    SenderId,
    SenderInstance,
    Counter,
    DeliveryProfile,
}

/// `build` was called before every required field was set.
#[derive(Clone, Debug, PartialEq, Eq)]
pub struct BuildError {
    pub missing: Vec<RequiredField>,
}

/// Collects the fields of an envelope. Transaction id and idempotency key
/// start as fresh random tokens; the message class follows the payload.
pub struct EnvelopeBuilder {
    pub proto_ver: u32,
    pub msg_class: MsgClass,
    pub delivery_profile: Option<DeliveryProfile>,
    pub sender_id: Option<String>,
    pub sender_instance: Option<String>,
    pub counter: Option<u64>,
    pub ttl_ms: u32,
    pub transaction_id: TransactionId,
    pub idempotency_key: IdempotencyKey,
    pub topic: String,
    pub target: String,
    pub scope: String,
    pub payload: Option<Payload>,
    pub sig_alg: SigAlg,
    pub signature: Vec<u8>,
    pub key_id: String,
    pub auth_context: Vec<u8>,
}

/// The required fields not yet set, in the order sender id, sender instance,
/// counter, delivery profile.
pub open spec fn missing_of(b: EnvelopeBuilder) -> Seq<RequiredField> {
    (if b.sender_id is None { seq![RequiredField::SenderId] } else { Seq::empty() })
        + (if b.sender_instance is None { seq![RequiredField::SenderInstance] } else { Seq::empty() })
        + (if b.counter is None { seq![RequiredField::Counter] } else { Seq::empty() })
        + (if b.delivery_profile is None { seq![RequiredField::DeliveryProfile] } else { Seq::empty() })
}

/// The message class that a payload's domain calls for.
pub fn msg_class_for(payload: &Payload) -> (r: MsgClass)
    ensures
        r == payload.msg_class(),
{
    match payload {
        Payload::Telemetry(_) => MsgClass::Telemetry,
        Payload::Command(_) => MsgClass::Command,
        Payload::Config(_) => MsgClass::Config,
        Payload::Engineering(_) => MsgClass::Engineering,
    }
}

impl EnvelopeBuilder {
    /// An empty builder with fresh random transaction id and idempotency
    /// key; `None` when the system's generator is unavailable.
    pub fn new() -> (r: Option<Self>)
        ensures
            r matches Some(b) ==> {
                &&& b.proto_ver == EXPECTED_PROTO_VER
                &&& b.msg_class == MsgClass::Unspecified
                &&& b.delivery_profile is None
                &&& b.sender_id is None
                &&& b.sender_instance is None
                &&& b.counter is None
                &&& b.ttl_ms == 0
                &&& is_token(b.transaction_id.text()@)
                &&& is_token(b.idempotency_key.text()@)
                &&& b.topic@.len() == 0
                &&& b.target@.len() == 0
                &&& b.scope@.len() == 0
                &&& b.payload is None
                &&& b.sig_alg == SigAlg::Unspecified
                &&& b.signature@.len() == 0
                &&& b.key_id@.len() == 0
                &&& b.auth_context@.len() == 0
            },
    {
        let transaction_id = match new_transaction_id() {
            Some(t) => t,
            None => return None,
        };
        let idempotency_key = match new_idempotency_key() {
            Some(k) => k,
            None => return None,
        };
        Some(EnvelopeBuilder {
            proto_ver: EXPECTED_PROTO_VER,
            msg_class: MsgClass::Unspecified,
            delivery_profile: None,
            sender_id: None,
            sender_instance: None,
            counter: None,
            ttl_ms: 0,
            transaction_id,
            idempotency_key,
            topic: String::new(),
            target: String::new(),
            scope: String::new(),
            payload: None,
            sig_alg: SigAlg::Unspecified,
            signature: Vec::new(),
            key_id: String::new(),
            auth_context: Vec::new(),
        })
    }

    pub fn with_sender_id(self, sender_id: &str) -> (r: Self)
        ensures
            r.sender_id matches Some(s) && s@ == sender_id@,
            r == (EnvelopeBuilder { sender_id: r.sender_id, ..self }),
    {
        EnvelopeBuilder { sender_id: Some(sender_id.to_owned()), ..self }
    }

    pub fn with_sender_instance(self, instance: &str) -> (r: Self)
        ensures
            r.sender_instance matches Some(s) && s@ == instance@,
            r == (EnvelopeBuilder { sender_instance: r.sender_instance, ..self }),
    {
        EnvelopeBuilder { sender_instance: Some(instance.to_owned()), ..self }
    }

    pub fn with_counter(self, counter: u64) -> (r: Self)
        ensures
            r == (EnvelopeBuilder { counter: Some(counter), ..self }),
    {
        EnvelopeBuilder { counter: Some(counter), ..self }
    }

    pub fn with_delivery_profile(self, profile: DeliveryProfile) -> (r: Self)
        ensures
            r == (EnvelopeBuilder { delivery_profile: Some(profile), ..self }),
    {
        EnvelopeBuilder { delivery_profile: Some(profile), ..self }
    }

    pub fn with_ttl_ms(self, ttl_ms: u32) -> (r: Self)
        ensures
            r == (EnvelopeBuilder { ttl_ms, ..self }),
    {
        EnvelopeBuilder { ttl_ms, ..self }
    }

    pub fn with_topic(self, topic: &str) -> (r: Self)
        ensures
            r.topic@ == topic@,
            r == (EnvelopeBuilder { topic: r.topic, ..self }),
    {
        EnvelopeBuilder { topic: topic.to_owned(), ..self }
    }

    pub fn with_target(self, target: &str) -> (r: Self)
        ensures
            r.target@ == target@,
            r == (EnvelopeBuilder { target: r.target, ..self }),
    {
        EnvelopeBuilder { target: target.to_owned(), ..self }
    }

    pub fn with_scope(self, scope: &str) -> (r: Self)
        ensures
            r.scope@ == scope@,
            r == (EnvelopeBuilder { scope: r.scope, ..self }),
    {
        EnvelopeBuilder { scope: scope.to_owned(), ..self }
    }

    /// Sets the payload and the message class that its domain calls for.
    pub fn with_payload(self, payload: Payload) -> (r: Self)
        ensures
            r == (EnvelopeBuilder { msg_class: payload.msg_class(), payload: Some(payload), ..self }),
    {
        let msg_class = msg_class_for(&payload);
        EnvelopeBuilder { msg_class, payload: Some(payload), ..self }
    }

    pub fn with_security(self, sig_alg: SigAlg, key_id: &str, auth_context: Vec<u8>, signature: Vec<u8>) -> (r: Self)
        ensures
            r.key_id@ == key_id@,
            r == (EnvelopeBuilder { sig_alg, key_id: r.key_id, auth_context, signature, ..self }),
    {
        EnvelopeBuilder { sig_alg, key_id: key_id.to_owned(), auth_context, signature, ..self }
    }

    /// The envelope, once sender id, sender instance, counter and delivery
    /// profile are all set; otherwise the list of those still missing.
    pub fn build(self) -> (r: Result<Envelope, BuildError>)
        ensures
            r is Ok <==> missing_of(self).len() == 0,
            r is Err ==> r->Err_0.missing@ == missing_of(self),
            r is Ok ==> r->Ok_0 == (Envelope {
                proto_ver: self.proto_ver,
                msg_class: self.msg_class,
                sender_id: r->Ok_0.sender_id,
                sender_instance: r->Ok_0.sender_instance,
                counter: self.counter.unwrap(),
                ttl_ms: self.ttl_ms,
                transaction_id: self.transaction_id,
                idempotency_key: self.idempotency_key,
                delivery_profile: self.delivery_profile.unwrap(),
                topic: self.topic,
                target: self.target,
                scope: self.scope,
                payload: self.payload,
                sig_alg: self.sig_alg,
                signature: self.signature,
                key_id: self.key_id,
                auth_context: self.auth_context,
            }),
            r is Ok ==> r->Ok_0.sender_id.text() == self.sender_id.unwrap(),
            r is Ok ==> r->Ok_0.sender_instance.text() == self.sender_instance.unwrap(),
    {
        let mut missing: Vec<RequiredField> = Vec::new();
        if self.sender_id.is_none() {
            missing.push(RequiredField::SenderId);
        }
        if self.sender_instance.is_none() {
            missing.push(RequiredField::SenderInstance);
        }
        if self.counter.is_none() {
            missing.push(RequiredField::Counter);
        }
        if self.delivery_profile.is_none() {
            missing.push(RequiredField::DeliveryProfile);
        }
        assert(missing@ =~= missing_of(self));
        match (self.sender_id, self.sender_instance, self.counter, self.delivery_profile) {
            (Some(sender_id), Some(sender_instance), Some(counter), Some(delivery_profile)) => Ok(Envelope {
                proto_ver: self.proto_ver,
                msg_class: self.msg_class,
                sender_id: DeviceId::new(sender_id),
                sender_instance: InstanceId::new(sender_instance),
                counter,
                ttl_ms: self.ttl_ms,
                transaction_id: self.transaction_id,
                idempotency_key: self.idempotency_key,
                delivery_profile,
                topic: self.topic,
                target: self.target,
                scope: self.scope,
                payload: self.payload,
                sig_alg: self.sig_alg,
                signature: self.signature,
                key_id: self.key_id,
                auth_context: self.auth_context,
            }),
            _ => Err(BuildError { missing }),
        }
    }
}

} // verus!
