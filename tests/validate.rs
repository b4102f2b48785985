use hmf::enums::{DeliveryProfile, Health, MsgClass, SigAlg};
use hmf::error::ValidateError;
use hmf::ids::{DeviceId, IdempotencyKey, InstanceId, TransactionId};
use hmf::types::{Envelope, LifecycleHeartbeat, Payload, Telemetry, TelemetryPayload};
use hmf::validate::envelope_validate;

fn valid() -> Envelope {
    Envelope {
        proto_ver: 1,
        msg_class: MsgClass::Telemetry,
        sender_id: DeviceId::new("device-1".to_string()),
        sender_instance: InstanceId::new("boot-1".to_string()),
        counter: 1,
        ttl_ms: 5000,
        transaction_id: TransactionId::new("txn-1".to_string()),
        idempotency_key: IdempotencyKey::new("idem-1".to_string()),
        delivery_profile: DeliveryProfile::BestEffort,
        topic: "zone:demo".to_string(),
        target: "site-warden".to_string(),
        scope: "s".to_string(),
        payload: Some(Payload::Telemetry(Telemetry {
            payload: Some(TelemetryPayload::Heartbeat(LifecycleHeartbeat { uptime_ms: 1, health: Health::Healthy })),
        })),
        sig_alg: SigAlg::Ed25519,
        signature: vec![0u8; 64],
        key_id: "k1".to_string(),
        auth_context: Vec::new(),
    }
}

#[test]
fn valid_envelope_passes() {
    assert_eq!(envelope_validate(&valid()), Ok(()));
}

#[test]
fn bad_proto_ver() {
    let mut e = valid();
    e.proto_ver = 2;
    assert_eq!(envelope_validate(&e), Err(ValidateError::BadProtoVer { got: 2, expected: 1 }));
}

#[test]
fn bad_ttl() {
    let mut e = valid();
    e.ttl_ms = 0;
    assert_eq!(envelope_validate(&e), Err(ValidateError::BadTtl));
}

#[test]
fn bad_counter() {
    let mut e = valid();
    e.counter = 0;
    assert_eq!(envelope_validate(&e), Err(ValidateError::BadCounter));
}

#[test]
fn bad_sig_alg() {
    let mut e = valid();
    e.sig_alg = SigAlg::Unspecified;
    assert_eq!(envelope_validate(&e), Err(ValidateError::BadSigAlg { got: SigAlg::Unspecified }));
}

#[test]
fn bad_signature_len() {
    let mut e = valid();
    e.signature = vec![0u8; 10];
    assert_eq!(envelope_validate(&e), Err(ValidateError::BadSignatureLen { expected: 64, got: 10 }));
}

#[test]
fn bad_key_id() {
    let mut e = valid();
    e.key_id = String::new();
    assert_eq!(envelope_validate(&e), Err(ValidateError::BadKeyId));
}

#[test]
fn missing_payload() {
    let mut e = valid();
    e.payload = None;
    assert_eq!(envelope_validate(&e), Err(ValidateError::MissingPayload));
}

#[test]
fn msg_class_mismatch() {
    let mut e = valid();
    e.msg_class = MsgClass::Command;
    assert_eq!(
        envelope_validate(&e),
        Err(ValidateError::MsgClassMismatch { msg_class: MsgClass::Command, payload_kind: "telemetry" })
    );
}

#[test]
fn first_failure_wins() {
    let mut e = valid();
    e.ttl_ms = 0;
    e.counter = 0;
    e.payload = None;
    assert_eq!(envelope_validate(&e), Err(ValidateError::BadTtl));
}
