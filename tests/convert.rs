use hmf::convert::{envelope_core_to_proto, envelope_proto_to_core};
use hmf::enums::{
    AckStatus, AlarmSeverity, DeathReason, DeliveryProfile, Health, MsgClass, ObservationType,
    Quality, ResultStatus, SigAlg,
};
use hmf::ids::{DeviceId, IdempotencyKey, InstanceId, TransactionId};
use hmf::strmap::StrMap;
use hmf::types::{
    Ack, Alarm, Command, CommandPayload, CommandRequest, Config, ConfigPayload, ConfigQuery,
    ConfigSnapshot, ConfigUpdate, Engineering, EngineeringPayload, EngineeringRequest,
    EngineeringResult, Envelope, LifecycleBirth, LifecycleDeath, LifecycleHeartbeat, Observation,
    OpResult, Payload, StateItem, StateUpdate, StateValue, Subject, Telemetry, TelemetryPayload,
};

fn params() -> StrMap {
    let mut m = StrMap::new();
    m.insert("mode".to_string(), "fast".to_string());
    m.insert("level".to_string(), "3".to_string());
    m
}

fn envelope(msg_class: MsgClass, payload: Option<Payload>) -> Envelope {
    Envelope {
        proto_ver: 1,
        msg_class,
        sender_id: DeviceId::new("device-1".to_string()),
        sender_instance: InstanceId::new("boot-1".to_string()),
        counter: 3,
        ttl_ms: 5000,
        transaction_id: TransactionId::new("txn".to_string()),
        idempotency_key: IdempotencyKey::new("idem".to_string()),
        delivery_profile: DeliveryProfile::AtLeastOnce,
        topic: "t".to_string(),
        target: "g".to_string(),
        scope: "s".to_string(),
        payload,
        sig_alg: SigAlg::Ed25519,
        signature: vec![1u8; 64],
        key_id: "k".to_string(),
        auth_context: vec![9, 9],
    }
}

fn round_trip(e: Envelope) {
    let back = envelope_proto_to_core(envelope_core_to_proto(e.clone())).unwrap();
    assert_eq!(back, e);
}

fn telemetry(p: TelemetryPayload) -> Envelope {
    envelope(MsgClass::Telemetry, Some(Payload::Telemetry(Telemetry { payload: Some(p) })))
}

#[test]
fn round_trip_telemetry_variants() {
    round_trip(telemetry(TelemetryPayload::Birth(LifecycleBirth {
        vendor: "v".to_string(),
        model: "m".to_string(),
        serial: "s".to_string(),
        hw_rev: "h".to_string(),
        fw_rev: "f".to_string(),
        uptime_ms: 10,
        capabilities: vec!["a".to_string(), "b".to_string()],
    })));
    round_trip(telemetry(TelemetryPayload::Heartbeat(LifecycleHeartbeat { uptime_ms: 1, health: Health::Degraded })));
    round_trip(telemetry(TelemetryPayload::Death(LifecycleDeath {
        reason: DeathReason::FatalFault,
        uptime_ms: 2,
        detail: "x".to_string(),
    })));
    round_trip(telemetry(TelemetryPayload::State(StateUpdate {
        local_seq: 4,
        items: vec![
            StateItem { key: "a".to_string(), value: Some(StateValue::F64(2.5f64.to_bits())), unit: "V".to_string(), quality: Quality::Good },
            StateItem { key: "b".to_string(), value: Some(StateValue::I64(-3)), unit: String::new(), quality: Quality::Bad },
            StateItem { key: "c".to_string(), value: Some(StateValue::U64(3)), unit: String::new(), quality: Quality::Unknown(17) },
            StateItem { key: "d".to_string(), value: Some(StateValue::B(true)), unit: String::new(), quality: Quality::Uncertain },
            StateItem { key: "e".to_string(), value: Some(StateValue::S("on".to_string())), unit: String::new(), quality: Quality::Good },
            StateItem { key: "f".to_string(), value: Some(StateValue::Blob(vec![0, 255])), unit: String::new(), quality: Quality::Good },
            StateItem { key: "g".to_string(), value: None, unit: String::new(), quality: Quality::Unspecified },
        ],
    })));
    round_trip(telemetry(TelemetryPayload::Alarm(Alarm {
        severity: AlarmSeverity::Critical,
        code: "c".to_string(),
        summary: "s".to_string(),
        detail: "d".to_string(),
        related_key: "r".to_string(),
        recommended_action: "a".to_string(),
    })));
    round_trip(telemetry(TelemetryPayload::Observation(Observation {
        subject: Some(Subject { subject_id: "x".to_string() }),
        observation_type: ObservationType::Threat,
        confidence_pct: 80,
        summary: "s".to_string(),
        detail: "d".to_string(),
    })));
    round_trip(envelope(MsgClass::Telemetry, Some(Payload::Telemetry(Telemetry { payload: None }))));
}

#[test]
fn round_trip_command_variants() {
    let cmd = |p| envelope(MsgClass::Command, Some(Payload::Command(Command { payload: Some(p) })));
    round_trip(cmd(CommandPayload::Request(CommandRequest {
        request_id: "r".to_string(),
        command: "reboot".to_string(),
        target: "t".to_string(),
        params: params(),
        blob: vec![1, 2],
        requires_confirmation: true,
    })));
    round_trip(cmd(CommandPayload::Ack(Ack { status: AckStatus::Received, detail: "ok".to_string() })));
    round_trip(cmd(CommandPayload::Result(OpResult { status: ResultStatus::Completed, detail: "d".to_string() })));
}

#[test]
fn round_trip_config_variants() {
    let cfg = |p| envelope(MsgClass::Config, Some(Payload::Config(Config { payload: Some(p) })));
    round_trip(cfg(ConfigPayload::Query(ConfigQuery { keys: vec!["a".to_string()] })));
    round_trip(cfg(ConfigPayload::Snapshot(ConfigSnapshot { config_version: 5, params: params() })));
    round_trip(cfg(ConfigPayload::Update(ConfigUpdate { update_id: "u".to_string(), strict: true, params: params() })));
    round_trip(cfg(ConfigPayload::Ack(Ack { status: AckStatus::Rejected, detail: String::new() })));
    round_trip(cfg(ConfigPayload::Result(OpResult { status: ResultStatus::Applied, detail: String::new() })));
}

#[test]
fn round_trip_engineering_variants() {
    let eng = |p| envelope(MsgClass::Engineering, Some(Payload::Engineering(Engineering { payload: Some(p) })));
    round_trip(eng(EngineeringPayload::Request(EngineeringRequest {
        request_id: "r".to_string(),
        action: "dump".to_string(),
        target: "t".to_string(),
        params: params(),
        blob: vec![],
        requires_confirmation: false,
    })));
    round_trip(eng(EngineeringPayload::Ack(Ack { status: AckStatus::Unknown(40), detail: "d".to_string() })));
    round_trip(eng(EngineeringPayload::Result(EngineeringResult {
        status: ResultStatus::Failed,
        detail: "d".to_string(),
        outputs: params(),
        blob: vec![3],
    })));
}

#[test]
fn round_trip_unknown_codes_and_no_payload() {
    let mut e = envelope(MsgClass::Unknown(99), None);
    e.delivery_profile = DeliveryProfile::Unknown(-5);
    e.sig_alg = SigAlg::Unknown(7);
    round_trip(e);
}

#[test]
fn wire_code_99_becomes_unknown() {
    let mut w = envelope_core_to_proto(envelope(MsgClass::Telemetry, None));
    assert_eq!(w.msg_class, 1);
    w.msg_class = 99;
    let back = envelope_proto_to_core(w).unwrap();
    assert_eq!(back.msg_class, MsgClass::Unknown(99));
    assert_eq!(back.msg_class.to_i32(), 99);
}

#[test]
fn wire_form_carries_codes_and_text() {
    let w = envelope_core_to_proto(telemetry(TelemetryPayload::Heartbeat(LifecycleHeartbeat {
        uptime_ms: 1,
        health: Health::Faulted,
    })));
    assert_eq!(w.sender_id, "device-1");
    assert_eq!(w.delivery_profile, 2);
    assert_eq!(w.sig_alg, 1);
    match w.payload {
        Some(hmf::proto::EnvelopePayload::Telemetry(t)) => match t.payload {
            Some(hmf::proto::TelemetryPayload::Heartbeat(h)) => assert_eq!(h.health, 3),
            _ => panic!("wrong telemetry variant"),
        },
        _ => panic!("wrong payload"),
    }
}
