use ed25519_dalek::{Signer, SigningKey};
use hmf::enums::{DeliveryProfile, Health, MsgClass, SigAlg};
use hmf::ids::{DeviceId, IdempotencyKey, InstanceId, TransactionId};
use hmf::canonical::envelope_signing_bytes;
use hmf::sign::{sign_envelope_ed25519, verify, verify_envelope_ed25519};
use hmf::types::{Envelope, LifecycleHeartbeat, Payload, Telemetry, TelemetryPayload};

fn unsigned() -> Envelope {
    Envelope {
        proto_ver: 1,
        msg_class: MsgClass::Telemetry,
        sender_id: DeviceId::new("device-1".to_string()),
        sender_instance: InstanceId::new("boot-1".to_string()),
        counter: 1,
        ttl_ms: 5000,
        transaction_id: TransactionId::new("txn-1".to_string()),
        idempotency_key: IdempotencyKey::new("idem-1".to_string()),
        delivery_profile: DeliveryProfile::BestEffort,
        topic: "zone:demo".to_string(),
        target: "site-warden".to_string(),
        scope: "scope".to_string(),
        payload: Some(Payload::Telemetry(Telemetry {
            payload: Some(TelemetryPayload::Heartbeat(LifecycleHeartbeat { uptime_ms: 42, health: Health::Healthy })),
        })),
        sig_alg: SigAlg::Unspecified,
        signature: Vec::new(),
        key_id: String::new(),
        auth_context: vec![5, 6],
    }
}

const SECRET: [u8; 32] = [7u8; 32];

fn public_key() -> [u8; 32] {
    SigningKey::from_bytes(&SECRET).verifying_key().to_bytes()
}

fn signed() -> Envelope {
    let mut e = unsigned();
    sign_envelope_ed25519(&mut e, "device-1:ed25519:v1", &SECRET);
    e
}

#[test]
fn signing_fills_security_fields_only() {
    let e = signed();
    assert_eq!(e.sig_alg, SigAlg::Ed25519);
    assert_eq!(e.key_id, "device-1:ed25519:v1");
    assert_eq!(e.signature.len(), 64);
    let mut rest = e.clone();
    rest.sig_alg = SigAlg::Unspecified;
    rest.key_id = String::new();
    rest.signature = Vec::new();
    assert_eq!(rest, unsigned());
}

#[test]
fn signed_envelope_verifies_with_matching_key() {
    assert!(verify_envelope_ed25519(&signed(), &public_key()));
}

#[test]
fn signature_fails_with_other_key() {
    let other = SigningKey::from_bytes(&[8u8; 32]).verifying_key().to_bytes();
    assert!(!verify_envelope_ed25519(&signed(), &other));
}

#[test]
fn tampering_any_signed_field_breaks_the_signature() {
    let vk = public_key();
    let tampered: Vec<Box<dyn Fn(&mut Envelope)>> = vec![
        Box::new(|e| e.sender_id = DeviceId::new("device-2".to_string())),
        Box::new(|e| e.counter = 2),
        Box::new(|e| e.ttl_ms = 5001),
        Box::new(|e| e.topic = "zone:demp".to_string()),
        Box::new(|e| e.target = "site-wardeN".to_string()),
        Box::new(|e| e.scope = "scopf".to_string()),
        Box::new(|e| e.key_id = "device-1:ed25519:v2".to_string()),
        Box::new(|e| e.auth_context = vec![5, 7]),
        Box::new(|e| {
            e.payload = Some(Payload::Telemetry(Telemetry {
                payload: Some(TelemetryPayload::Heartbeat(LifecycleHeartbeat { uptime_ms: 43, health: Health::Healthy })),
            }))
        }),
    ];
    for f in tampered {
        let mut e = signed();
        f(&mut e);
        assert!(!verify_envelope_ed25519(&e, &vk));
    }
}

#[test]
fn changing_sig_alg_rejects() {
    let mut e = signed();
    e.sig_alg = SigAlg::Unknown(2);
    assert!(!verify_envelope_ed25519(&e, &public_key()));
}

#[test]
fn wrong_signature_length_rejects() {
    let mut e = signed();
    e.signature.pop();
    assert!(!verify_envelope_ed25519(&e, &public_key()));
}

#[test]
fn missing_payload_rejects() {
    let mut e = signed();
    e.payload = None;
    assert!(!verify_envelope_ed25519(&e, &public_key()));
}

#[test]
fn detached_verify_checks_length() {
    let sig = hmf::sign::sign(&SECRET, b"msg");
    assert!(verify(&public_key(), b"msg", &sig));
    assert!(!verify(&public_key(), b"msh", &sig));
    assert!(!verify(&public_key(), b"msg", &sig[..63]));
}

#[test]
fn stored_signature_is_ed25519_of_signing_bytes() {
    let e = signed();
    let expected = SigningKey::from_bytes(&SECRET).sign(&envelope_signing_bytes(&e)).to_bytes();
    assert_eq!(e.signature, expected.to_vec());
}
