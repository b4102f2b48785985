use hmf::canonical::{canonical_payload_bytes, envelope_signing_bytes, payload_hash, DOMAIN_TAG};
use hmf::enums::{DeliveryProfile, Health, MsgClass, Quality, SigAlg};
use hmf::ids::{DeviceId, IdempotencyKey, InstanceId, TransactionId};
use hmf::strmap::StrMap;
use hmf::types::{
    Config, ConfigPayload, ConfigSnapshot, Envelope, LifecycleHeartbeat, Payload, StateItem,
    StateUpdate, StateValue, Telemetry, TelemetryPayload,
};
use sha2::{Digest, Sha256};

fn heartbeat(uptime_ms: u64) -> Payload {
    Payload::Telemetry(Telemetry {
        payload: Some(TelemetryPayload::Heartbeat(LifecycleHeartbeat { uptime_ms, health: Health::Healthy })),
    })
}

fn map_of(pairs: &[(&str, &str)]) -> StrMap {
    let mut m = StrMap::new();
    for (k, v) in pairs {
        m.insert(k.to_string(), v.to_string());
    }
    m
}

fn envelope(payload: Payload) -> Envelope {
    Envelope {
        proto_ver: 1,
        msg_class: MsgClass::Telemetry,
        sender_id: DeviceId::new("d".to_string()),
        sender_instance: InstanceId::new("i".to_string()),
        counter: 1,
        ttl_ms: 5000,
        transaction_id: TransactionId::new("t".to_string()),
        idempotency_key: IdempotencyKey::new("k".to_string()),
        delivery_profile: DeliveryProfile::BestEffort,
        topic: "zone:demo".to_string(),
        target: String::new(),
        scope: String::new(),
        payload: Some(payload),
        sig_alg: SigAlg::Ed25519,
        signature: vec![0u8; 64],
        key_id: "key".to_string(),
        auth_context: vec![1, 2, 3],
    }
}

fn sha(b: &[u8]) -> Vec<u8> {
    let mut h = Sha256::new();
    h.update(b);
    h.finalize().to_vec()
}

#[test]
fn heartbeat_payload_bytes_are_exact() {
    let bytes = canonical_payload_bytes(&heartbeat(5));
    assert_eq!(bytes, vec![1, 2, 0, 0, 0, 0, 0, 0, 0, 5, 0, 0, 0, 1]);
}

#[test]
fn empty_telemetry_is_tag_and_zero() {
    let bytes = canonical_payload_bytes(&Payload::Telemetry(Telemetry { payload: None }));
    assert_eq!(bytes, vec![1, 0]);
}

#[test]
fn state_item_with_float_and_string() {
    let p = Payload::Telemetry(Telemetry {
        payload: Some(TelemetryPayload::State(StateUpdate {
            local_seq: 2,
            items: vec![StateItem {
                key: "k".to_string(),
                value: Some(StateValue::F64(1.5f64.to_bits())),
                unit: "u".to_string(),
                quality: Quality::Good,
            }],
        })),
    });
    let mut expected = vec![1, 4, 0, 0, 0, 0, 0, 0, 0, 2, 0, 0, 0, 1];
    expected.extend_from_slice(&[0, 0, 0, 1, b'k', 0, 0, 0, 1, b'u', 0, 0, 0, 1, 1]);
    expected.extend_from_slice(&1.5f64.to_bits().to_be_bytes());
    assert_eq!(canonical_payload_bytes(&p), expected);
}

#[test]
fn map_is_encoded_sorted_by_key() {
    let p = Payload::Config(Config {
        payload: Some(ConfigPayload::Snapshot(ConfigSnapshot {
            config_version: 7,
            params: map_of(&[("b", "2"), ("a", "1")]),
        })),
    });
    let mut expected = vec![3, 2, 0, 0, 0, 0, 0, 0, 0, 7, 0, 0, 0, 2];
    expected.extend_from_slice(&[0, 0, 0, 1, b'a', 0, 0, 0, 1, b'1', 0, 0, 0, 1, b'b', 0, 0, 0, 1, b'2']);
    assert_eq!(canonical_payload_bytes(&p), expected);
}

#[test]
fn map_insertion_order_does_not_change_signing_bytes() {
    let snap = |m: StrMap| {
        let mut e = envelope(Payload::Config(Config {
            payload: Some(ConfigPayload::Snapshot(ConfigSnapshot { config_version: 1, params: m })),
        }));
        e.msg_class = MsgClass::Config;
        e
    };
    let a = snap(map_of(&[("zeta", "1"), ("alpha", "2"), ("mid", "3")]));
    let b = snap(map_of(&[("mid", "3"), ("zeta", "1"), ("alpha", "2")]));
    assert_eq!(envelope_signing_bytes(&a), envelope_signing_bytes(&b));
}

#[test]
fn payload_hash_is_sha256_of_canonical_bytes() {
    let p = heartbeat(9);
    assert_eq!(payload_hash(&p).to_vec(), sha(&canonical_payload_bytes(&p)));
}

#[test]
fn signing_bytes_layout() {
    let e = envelope(heartbeat(5));
    let b = envelope_signing_bytes(&e);
    let tag = DOMAIN_TAG.as_bytes();
    assert_eq!(&b[0..4], &(tag.len() as u32).to_be_bytes());
    assert_eq!(&b[4..4 + tag.len()], b"HMFv1:envelope-signature");
    let n = b.len();
    assert_eq!(&b[n - 32..], sha(&canonical_payload_bytes(&heartbeat(5))).as_slice());
    assert_eq!(&b[n - 64..n - 32], sha(&[1, 2, 3]).as_slice());
    // tag, proto_ver, msg_class, 4 short strings, counter, ttl, delivery, 3 hints, sig_alg, key id, two digests
    let expected_len = (4 + 24) + 4 + 4 + (4 + 1) * 4 + 8 + 4 + 4 + (4 + 9) + 4 + 4 + 4 + (4 + 3) + 32 + 32;
    assert_eq!(n, expected_len);
}

#[test]
fn signing_bytes_exclude_the_signature() {
    let a = envelope(heartbeat(5));
    let mut b = a.clone();
    b.signature = vec![9u8; 64];
    assert_eq!(envelope_signing_bytes(&a), envelope_signing_bytes(&b));
}
