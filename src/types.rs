use crate::enums::{AckStatus, AlarmSeverity, DeathReason, DeliveryProfile, Health, MsgClass, ObservationType, Quality, ResultStatus, SigAlg};
use crate::ids::{DeviceId, IdempotencyKey, InstanceId, TransactionId};
use crate::strmap::StrMap;
use vstd::prelude::*;

verus! {

/// The only protocol version this library speaks.
pub const EXPECTED_PROTO_VER: u32 = 1;

/// The unit of transport: a versioned header, routing hints, an optional
/// payload and a security block.
#[derive(Clone, Debug, PartialEq)]
pub struct Envelope {
    pub proto_ver: u32,
    pub msg_class: MsgClass,
    pub sender_id: DeviceId,
    pub sender_instance: InstanceId,
    pub counter: u64,
    pub ttl_ms: u32,
    pub transaction_id: TransactionId,
    pub idempotency_key: IdempotencyKey,
    pub delivery_profile: DeliveryProfile,
    pub topic: String,
    pub target: String,
    pub scope: String,
    pub payload: Option<Payload>,
    pub sig_alg: SigAlg,
    pub signature: Vec<u8>,
    pub key_id: String,
    pub auth_context: Vec<u8>,
}

/// The four payload domains.
#[derive(Clone, Debug, PartialEq)]
pub enum Payload {
    Telemetry(Telemetry),
    Command(Command),
    Config(Config),
    Engineering(Engineering),
}

#[derive(Clone, Debug, PartialEq)]
pub struct Telemetry {
    pub payload: Option<TelemetryPayload>,
}

#[derive(Clone, Debug, PartialEq)]
pub enum TelemetryPayload {
    Birth(LifecycleBirth),
    Heartbeat(LifecycleHeartbeat),
    Death(LifecycleDeath),
    State(StateUpdate),
    Alarm(Alarm),
    Observation(Observation),
}

#[derive(Clone, Debug, PartialEq, Eq)]
pub struct LifecycleBirth {
    pub vendor: String,
    pub model: String,
    pub serial: String,
    pub hw_rev: String,
    pub fw_rev: String,
    pub uptime_ms: u64,
    pub capabilities: Vec<String>,
}

#[derive(Clone, Debug, PartialEq, Eq)]
pub struct LifecycleHeartbeat {
    pub uptime_ms: u64,
    pub health: Health,
}

#[derive(Clone, Debug, PartialEq, Eq)]
pub struct LifecycleDeath {
    pub reason: DeathReason,
    pub uptime_ms: u64,
    pub detail: String,
}

#[derive(Clone, Debug, PartialEq)]
pub struct StateUpdate {
    pub local_seq: u64,
    pub items: Vec<StateItem>,
}

#[derive(Clone, Debug, PartialEq)]
pub struct StateItem {
    pub key: String,
    pub value: Option<StateValue>,
    pub unit: String,
    pub quality: Quality,
}

/// A state value. `F64` holds the IEEE-754 bit pattern of a 64-bit float
/// (`f64::to_bits`), which is also what the canonical encoding writes.
#[derive(Clone, Debug, PartialEq)]
pub enum StateValue {
    F64(u64),
    I64(i64),
    U64(u64),
    B(bool),
    S(String),
    Blob(Vec<u8>),
}

#[derive(Clone, Debug, PartialEq, Eq)]
pub struct Alarm {
    pub severity: AlarmSeverity,
    pub code: String,
    pub summary: String,
    pub detail: String,
    pub related_key: String,
    pub recommended_action: String,
}

#[derive(Clone, Debug, PartialEq, Eq)]
pub struct Observation {
    pub subject: Option<Subject>,
    pub observation_type: ObservationType,
    pub confidence_pct: u32,
    pub summary: String,
    pub detail: String,
}

#[derive(Clone, Debug, PartialEq, Eq)]
pub struct Subject {
    pub subject_id: String,
}

#[derive(Clone, Debug, PartialEq, Eq)]
pub struct Command {
    pub payload: Option<CommandPayload>,
}

#[derive(Clone, Debug, PartialEq, Eq)]
pub enum CommandPayload {
    Request(CommandRequest),
    Ack(Ack),
    Result(OpResult),
}

#[derive(Clone, Debug, PartialEq, Eq)]
pub struct CommandRequest {
    pub request_id: String,
    pub command: String,
    pub target: String,
    pub params: StrMap,
    pub blob: Vec<u8>,
    pub requires_confirmation: bool,
}

#[derive(Clone, Debug, PartialEq, Eq)]
pub struct Config {
    pub payload: Option<ConfigPayload>,
}

#[derive(Clone, Debug, PartialEq, Eq)]
pub enum ConfigPayload {
    Query(ConfigQuery),
    Snapshot(ConfigSnapshot),
    Update(ConfigUpdate),
    Ack(Ack),
    Result(OpResult),
}

#[derive(Clone, Debug, PartialEq, Eq)]
pub struct ConfigQuery {
    pub keys: Vec<String>,
}

#[derive(Clone, Debug, PartialEq, Eq)]
pub struct ConfigSnapshot {
    pub config_version: u64,
    pub params: StrMap,
}

#[derive(Clone, Debug, PartialEq, Eq)]
pub struct ConfigUpdate {
    pub update_id: String,
    pub strict: bool,
    pub params: StrMap,
}

#[derive(Clone, Debug, PartialEq, Eq)]
pub struct Engineering {
    pub payload: Option<EngineeringPayload>,
}

#[derive(Clone, Debug, PartialEq, Eq)]
pub enum EngineeringPayload {
    Request(EngineeringRequest),
    Ack(Ack),
    Result(EngineeringResult),
}

#[derive(Clone, Debug, PartialEq, Eq)]
pub struct EngineeringRequest {
    pub request_id: String,
    pub action: String,
    pub target: String,
    pub params: StrMap,
    pub blob: Vec<u8>,
    pub requires_confirmation: bool,
}

#[derive(Clone, Debug, PartialEq, Eq)]
pub struct EngineeringResult {
    pub status: ResultStatus,
    pub detail: String,
    pub outputs: StrMap,
    pub blob: Vec<u8>,
}

#[derive(Clone, Debug, PartialEq, Eq)]
pub struct Ack {
    pub status: AckStatus,
    pub detail: String,
}

#[derive(Clone, Debug, PartialEq, Eq)]
pub struct OpResult {
    pub status: ResultStatus,
    pub detail: String,
}

// Well-formedness: every enumeration value is as `from_i32` makes it and
// every map keeps its keys in order.

impl Envelope {
    pub open spec fn wf(self) -> bool {
        &&& self.msg_class.wf()
        &&& self.delivery_profile.wf()
        &&& self.sig_alg.wf()
        &&& (self.payload matches Some(p) ==> p.wf())
    }
}

impl Payload {
    pub open spec fn wf(self) -> bool {
        match self {
            Payload::Telemetry(t) => t.payload matches Some(p) ==> p.wf(),
            Payload::Command(c) => c.payload matches Some(p) ==> p.wf(),
            Payload::Config(c) => c.payload matches Some(p) ==> p.wf(),
            Payload::Engineering(e) => e.payload matches Some(p) ==> p.wf(),
        }
    }

    /// The message class that this payload's domain calls for.
    pub open spec fn msg_class(self) -> MsgClass {
        match self {
            Payload::Telemetry(_) => MsgClass::Telemetry,
            Payload::Command(_) => MsgClass::Command,
            Payload::Config(_) => MsgClass::Config,
            Payload::Engineering(_) => MsgClass::Engineering,
        }
    }
}

impl TelemetryPayload {
    pub open spec fn wf(self) -> bool {
        match self {
            TelemetryPayload::Birth(_) => true,
            TelemetryPayload::Heartbeat(h) => h.health.wf(),
            TelemetryPayload::Death(d) => d.reason.wf(),
            TelemetryPayload::State(s) => forall|i: int| 0 <= i < s.items@.len() ==> (#[trigger] s.items@[i]).quality.wf(),
            TelemetryPayload::Alarm(a) => a.severity.wf(),
            TelemetryPayload::Observation(o) => o.observation_type.wf(),
        }
    }
}

impl CommandPayload {
    pub open spec fn wf(self) -> bool {
        match self {
            CommandPayload::Request(r) => r.params.wf(),
            CommandPayload::Ack(a) => a.status.wf(),
            CommandPayload::Result(r) => r.status.wf(),
        }
    }
}

impl ConfigPayload {
    pub open spec fn wf(self) -> bool {
        match self {
            ConfigPayload::Query(_) => true,
            ConfigPayload::Snapshot(s) => s.params.wf(),
            ConfigPayload::Update(u) => u.params.wf(),
            ConfigPayload::Ack(a) => a.status.wf(),
            ConfigPayload::Result(r) => r.status.wf(),
        }
    }
}

impl EngineeringPayload {
    pub open spec fn wf(self) -> bool {
        match self {
            EngineeringPayload::Request(r) => r.params.wf(),
            EngineeringPayload::Ack(a) => a.status.wf(),
            EngineeringPayload::Result(r) => r.status.wf() && r.outputs.wf(),
        }
    }
}

} // verus!
