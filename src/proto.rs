//! The wire model: the message set that the wire codec encodes and decodes.
//! Enumerations travel as their numeric codes and identifiers as plain text.
use crate::strmap::StrMap;
use vstd::prelude::*;

verus! {

#[derive(Clone, Debug, PartialEq)]
pub struct Envelope {
    pub proto_ver: u32,
    pub msg_class: i32,
    pub sender_id: String,
    pub sender_instance: String,
    pub counter: u64,
    pub ttl_ms: u32,
    pub transaction_id: String,
    pub idempotency_key: String,
    pub delivery_profile: i32,
    pub topic: String,
    pub target: String,
    pub scope: String,
    pub payload: Option<EnvelopePayload>,
    pub sig_alg: i32,
    pub signature: Vec<u8>,
    pub key_id: String,
    pub auth_context: Vec<u8>,
}

#[derive(Clone, Debug, PartialEq)]
pub enum EnvelopePayload {
    Telemetry(Telemetry),
    Command(Command),
    Config(Config),
    Engineering(Engineering),
}

#[derive(Clone, Debug, PartialEq)]
pub struct Telemetry {
    pub payload: Option<TelemetryPayload>,
}

#[derive(Clone, Debug, PartialEq)]
pub enum TelemetryPayload {
    Birth(LifecycleBirth),
    Heartbeat(LifecycleHeartbeat),
    Death(LifecycleDeath),
    State(StateUpdate),
    Alarm(Alarm),
    Observation(Observation),
}

#[derive(Clone, Debug, PartialEq, Eq)]
pub struct LifecycleBirth {
    pub vendor: String,
    pub model: String,
    pub serial: String,
    pub hw_rev: String,
    pub fw_rev: String,
    pub uptime_ms: u64,
    pub capabilities: Vec<String>,
}

#[derive(Clone, Debug, PartialEq, Eq)]
pub struct LifecycleHeartbeat {
    pub uptime_ms: u64,
    pub health: i32,
}

#[derive(Clone, Debug, PartialEq, Eq)]
pub struct LifecycleDeath {
    pub reason: i32,
    pub uptime_ms: u64,
    pub detail: String,
}

#[derive(Clone, Debug, PartialEq)]
pub struct StateUpdate {
    pub local_seq: u64,
    pub items: Vec<StateItem>,
}

#[derive(Clone, Debug, PartialEq)]
pub struct StateItem {
    pub key: String,
    pub value: Option<StateItemValue>,
    pub unit: String,
    pub quality: i32,
}

/// `F64` holds the bit pattern of a 64-bit float.
#[derive(Clone, Debug, PartialEq)]
pub enum StateItemValue {
    F64(u64),
    I64(i64),
    U64(u64),
    B(bool),
    S(String),
    Blob(Vec<u8>),
}

#[derive(Clone, Debug, PartialEq, Eq)]
pub struct Alarm {
    pub severity: i32,
    pub code: String,
    pub summary: String,
    pub detail: String,
    pub related_key: String,
    pub recommended_action: String,
}

#[derive(Clone, Debug, PartialEq, Eq)]
pub struct Observation {
    pub subject: Option<Subject>,
    pub observation_type: i32,
    pub confidence_pct: u32,
    pub summary: String,
    pub detail: String,
}

#[derive(Clone, Debug, PartialEq, Eq)]
pub struct Subject {
    pub subject_id: String,
}

#[derive(Clone, Debug, PartialEq, Eq)]
pub struct Command {
    pub payload: Option<CommandPayload>,
}

#[derive(Clone, Debug, PartialEq, Eq)]
pub enum CommandPayload {
    Request(CommandRequest),
    Ack(Ack),
    Result(OpResult),
}

#[derive(Clone, Debug, PartialEq, Eq)]
pub struct CommandRequest {
    pub request_id: String,
    pub command: String,
    pub target: String,
    pub params: StrMap,
    pub blob: Vec<u8>,
    pub requires_confirmation: bool,
}

#[derive(Clone, Debug, PartialEq, Eq)]
pub struct Config {
    pub payload: Option<ConfigPayload>,
}

#[derive(Clone, Debug, PartialEq, Eq)]
pub enum ConfigPayload {
    Query(ConfigQuery),
    Snapshot(ConfigSnapshot),
    Update(ConfigUpdate),
    Ack(Ack),
    Result(OpResult),
}

#[derive(Clone, Debug, PartialEq, Eq)]
pub struct ConfigQuery {
    pub keys: Vec<String>,
}

#[derive(Clone, Debug, PartialEq, Eq)]
pub struct ConfigSnapshot {
    pub config_version: u64,
    pub params: StrMap,
}

#[derive(Clone, Debug, PartialEq, Eq)]
pub struct ConfigUpdate {
    pub update_id: String,
    pub strict: bool,
    pub params: StrMap,
}

#[derive(Clone, Debug, PartialEq, Eq)]
pub struct Engineering {
    pub payload: Option<EngineeringPayload>,
}

#[derive(Clone, Debug, PartialEq, Eq)]
pub enum EngineeringPayload {
    Request(EngineeringRequest),
    Ack(Ack),
    Result(EngineeringResult),
}

#[derive(Clone, Debug, PartialEq, Eq)]
pub struct EngineeringRequest {
    pub request_id: String,
    pub action: String,
    pub target: String,
    pub params: StrMap,
    pub blob: Vec<u8>,
    pub requires_confirmation: bool,
}

#[derive(Clone, Debug, PartialEq, Eq)]
pub struct EngineeringResult {
    pub status: i32,
    pub detail: String,
    pub outputs: StrMap,
    pub blob: Vec<u8>,
}

#[derive(Clone, Debug, PartialEq, Eq)]
pub struct Ack {
    pub status: i32,
    pub detail: String,
}

#[derive(Clone, Debug, PartialEq, Eq)]
pub struct OpResult {
    pub status: i32,
    pub detail: String,
}

} // verus!
