use ed25519_dalek::SigningKey;
use hmf::builder::{BuildError, EnvelopeBuilder, RequiredField};
use hmf::enums::{DeliveryProfile, Health, MsgClass};
use hmf::error::TransportError;
use hmf::sign::{sign_envelope_ed25519, verify_envelope_ed25519};
use hmf::transport::{inbound_envelope, outbound_wire, read_frame, write_frame};
use hmf::types::{LifecycleHeartbeat, Payload, Telemetry, TelemetryPayload};
use std::io::Cursor;

fn heartbeat() -> Payload {
    Payload::Telemetry(Telemetry {
        payload: Some(TelemetryPayload::Heartbeat(LifecycleHeartbeat { uptime_ms: 1234, health: Health::Healthy })),
    })
}

#[test]
fn heartbeat_end_to_end() {
    let secret = [7u8; 32];
    let public = SigningKey::from_bytes(&secret).verifying_key().to_bytes();
    let mut env = EnvelopeBuilder::new()
        .unwrap()
        .with_sender_id("device-1")
        .with_sender_instance("device-1:boot-1")
        .with_counter(1)
        .with_delivery_profile(DeliveryProfile::BestEffort)
        .with_ttl_ms(5000)
        .with_topic("zone:demo")
        .with_payload(heartbeat())
        .build()
        .unwrap();
    sign_envelope_ed25519(&mut env, "device-1:ed25519:v1", &secret);
    let sent = env.clone();

    // Sender: validate and convert, then frame and write.
    let wire = outbound_wire(env).unwrap();
    let mut channel: Vec<u8> = Vec::new();
    let body = hmf::canonical::envelope_signing_bytes(&sent);
    write_frame(&mut channel, &body).unwrap();

    // Receiver: read the frame, then convert and validate.
    let mut reader = Cursor::new(channel);
    let got = read_frame(&mut reader).unwrap().unwrap();
    assert_eq!(got, body);
    assert!(read_frame(&mut reader).unwrap().is_none());
    let received = inbound_envelope(wire).unwrap();

    assert_eq!(received, sent);
    assert_eq!(received.counter, 1);
    assert_eq!(received.ttl_ms, 5000);
    assert_eq!(received.topic, "zone:demo");
    assert_eq!(received.msg_class, MsgClass::Telemetry);
    assert!(verify_envelope_ed25519(&received, &public));
    let other = SigningKey::from_bytes(&[9u8; 32]).verifying_key().to_bytes();
    assert!(!verify_envelope_ed25519(&received, &other));
}

#[test]
fn closed_stream_at_frame_boundary_is_no_message() {
    let mut reader = Cursor::new(Vec::<u8>::new());
    assert!(read_frame(&mut reader).unwrap().is_none());
}

#[test]
fn truncated_frame_is_an_error() {
    let mut reader = Cursor::new(vec![0u8, 0, 0, 100, 1, 2]);
    match read_frame(&mut reader) {
        Err(TransportError::Record(hmf::error::RecordError::Truncated { expected, got })) => {
            assert_eq!((expected, got), (100, 0));
        },
        other => panic!("unexpected {:?}", other),
    }
}

#[test]
fn oversized_frame_is_not_written() {
    let mut channel: Vec<u8> = Vec::new();
    let r = write_frame(&mut channel, &vec![0u8; 2_000_000]);
    assert!(matches!(r, Err(TransportError::Record(hmf::error::RecordError::TooLarge { len: 2_000_000, max: 1_048_576 }))));
    assert!(channel.is_empty());
}

#[test]
fn unsigned_envelope_is_not_sent() {
    let env = EnvelopeBuilder::new()
        .unwrap()
        .with_sender_id("d")
        .with_sender_instance("i")
        .with_counter(1)
        .with_delivery_profile(DeliveryProfile::BestEffort)
        .with_ttl_ms(5000)
        .with_payload(heartbeat())
        .build()
        .unwrap();
    match outbound_wire(env) {
        Err(TransportError::Validate(e)) => {
            assert_eq!(e, hmf::error::ValidateError::BadSigAlg { got: hmf::enums::SigAlg::Unspecified })
        },
        _ => panic!("expected a validation error"),
    }
}

#[test]
fn builder_reports_missing_fields() {
    let r = EnvelopeBuilder::new().unwrap().with_counter(3).build();
    assert_eq!(
        r.err(),
        Some(BuildError { missing: vec![RequiredField::SenderId, RequiredField::SenderInstance, RequiredField::DeliveryProfile] })
    );
}

#[test]
fn builder_sets_class_from_payload() {
    let e = EnvelopeBuilder::new()
        .unwrap()
        .with_sender_id("d")
        .with_sender_instance("i")
        .with_counter(1)
        .with_delivery_profile(DeliveryProfile::CriticalExec)
        .with_payload(heartbeat())
        .with_scope("sc")
        .with_target("tg")
        .build()
        .unwrap();
    assert_eq!(e.msg_class, MsgClass::Telemetry);
    assert_eq!(e.proto_ver, 1);
    assert_eq!(e.ttl_ms, 0);
    assert_eq!(e.scope, "sc");
    assert_eq!(e.target, "tg");
    assert_eq!(e.transaction_id.as_str().len(), 32);
}

#[test]
fn close_inside_the_prefix_is_an_error() {
    for k in 1..4 {
        let mut reader = Cursor::new(vec![0u8; k]);
        match read_frame(&mut reader) {
            Err(TransportError::Record(hmf::error::RecordError::Io(e))) => {
                assert_eq!(e.kind(), std::io::ErrorKind::UnexpectedEof)
            },
            other => panic!("unexpected {:?}", other),
        }
    }
}

#[test]
fn two_frames_then_clean_close() {
    let mut channel: Vec<u8> = Vec::new();
    write_frame(&mut channel, b"one").unwrap();
    write_frame(&mut channel, b"").unwrap();
    let mut reader = Cursor::new(channel);
    assert_eq!(read_frame(&mut reader).unwrap(), Some(b"one".to_vec()));
    assert_eq!(read_frame(&mut reader).unwrap(), Some(Vec::new()));
    assert!(read_frame(&mut reader).unwrap().is_none());
}
