//! Conversion between the domain model and the wire model. Enumerations
//! travel as their numeric codes (unrecognised codes included), maps and
//! byte strings are handed over unchanged.
use crate::enums::{
    AckStatus, AlarmSeverity, DeathReason, DeliveryProfile, Health, MsgClass, ObservationType,
    Quality, ResultStatus, SigAlg,
};
use crate::error::WireError;
use crate::ids::{DeviceId, IdempotencyKey, InstanceId, TransactionId};
use crate::proto;
use crate::types;
use vstd::prelude::*;

verus! {

// ---------- the wire form of each domain value ----------

pub open spec fn ack_to_wire(a: types::Ack) -> proto::Ack {
    proto::Ack { status: a.status.code(), detail: a.detail }
}

pub open spec fn op_result_to_wire(r: types::OpResult) -> proto::OpResult {
    proto::OpResult { status: r.status.code(), detail: r.detail }
}

pub open spec fn birth_to_wire(b: types::LifecycleBirth) -> proto::LifecycleBirth {
    proto::LifecycleBirth {
        vendor: b.vendor,
        model: b.model,
        serial: b.serial,
        hw_rev: b.hw_rev,
        fw_rev: b.fw_rev,
        uptime_ms: b.uptime_ms,
        capabilities: b.capabilities,
    }
}

pub open spec fn heartbeat_to_wire(h: types::LifecycleHeartbeat) -> proto::LifecycleHeartbeat {
    proto::LifecycleHeartbeat { uptime_ms: h.uptime_ms, health: h.health.code() }
}

pub open spec fn death_to_wire(d: types::LifecycleDeath) -> proto::LifecycleDeath {
    proto::LifecycleDeath { reason: d.reason.code(), uptime_ms: d.uptime_ms, detail: d.detail }
}

pub open spec fn state_value_to_wire(v: types::StateValue) -> proto::StateItemValue {
    match v {
        types::StateValue::F64(x) => proto::StateItemValue::F64(x),
        types::StateValue::I64(x) => proto::StateItemValue::I64(x),
        types::StateValue::U64(x) => proto::StateItemValue::U64(x),
        types::StateValue::B(x) => proto::StateItemValue::B(x),
        types::StateValue::S(x) => proto::StateItemValue::S(x),
        types::StateValue::Blob(x) => proto::StateItemValue::Blob(x),
    }
}

pub open spec fn state_item_to_wire(it: types::StateItem) -> proto::StateItem {
    proto::StateItem {
        key: it.key,
        value: match it.value {
            Some(v) => Some(state_value_to_wire(v)),
            None => None,
        },
        unit: it.unit,
        quality: it.quality.code(),
    }
}

pub open spec fn alarm_to_wire(a: types::Alarm) -> proto::Alarm {
    proto::Alarm {
        severity: a.severity.code(),
        code: a.code,
        summary: a.summary,
        detail: a.detail,
        related_key: a.related_key,
        recommended_action: a.recommended_action,
    }
}

pub open spec fn observation_to_wire(o: types::Observation) -> proto::Observation {
    proto::Observation {
        subject: match o.subject {
            Some(s) => Some(proto::Subject { subject_id: s.subject_id }),
            None => None,
        },
        observation_type: o.observation_type.code(),
        confidence_pct: o.confidence_pct,
        summary: o.summary,
        detail: o.detail,
    }
}

pub open spec fn command_payload_to_wire(c: types::CommandPayload) -> proto::CommandPayload {
    match c {
        types::CommandPayload::Request(r) => proto::CommandPayload::Request(
            proto::CommandRequest {
                request_id: r.request_id,
                command: r.command,
                target: r.target,
                params: r.params,
                blob: r.blob,
                requires_confirmation: r.requires_confirmation,
            },
        ),
        types::CommandPayload::Ack(a) => proto::CommandPayload::Ack(ack_to_wire(a)),
        types::CommandPayload::Result(r) => proto::CommandPayload::Result(op_result_to_wire(r)),
    }
}

pub open spec fn command_to_wire(c: types::Command) -> proto::Command {
    proto::Command {
        payload: match c.payload {
            Some(p) => Some(command_payload_to_wire(p)),
            None => None,
        },
    }
}

pub open spec fn config_payload_to_wire(c: types::ConfigPayload) -> proto::ConfigPayload {
    match c {
        types::ConfigPayload::Query(q) => proto::ConfigPayload::Query(proto::ConfigQuery { keys: q.keys }),
        types::ConfigPayload::Snapshot(s) => proto::ConfigPayload::Snapshot(
            proto::ConfigSnapshot { config_version: s.config_version, params: s.params },
        ),
        types::ConfigPayload::Update(u) => proto::ConfigPayload::Update(
            proto::ConfigUpdate { update_id: u.update_id, strict: u.strict, params: u.params },
        ),
        types::ConfigPayload::Ack(a) => proto::ConfigPayload::Ack(ack_to_wire(a)),
        types::ConfigPayload::Result(r) => proto::ConfigPayload::Result(op_result_to_wire(r)),
    }
}

pub open spec fn config_to_wire(c: types::Config) -> proto::Config {
    proto::Config {
        payload: match c.payload {
            Some(p) => Some(config_payload_to_wire(p)),
            None => None,
        },
    }
}

pub open spec fn engineering_payload_to_wire(e: types::EngineeringPayload) -> proto::EngineeringPayload {
    match e {
        types::EngineeringPayload::Request(r) => proto::EngineeringPayload::Request(
            proto::EngineeringRequest {
                request_id: r.request_id,
                action: r.action,
                target: r.target,
                params: r.params,
                blob: r.blob,
                requires_confirmation: r.requires_confirmation,
            },
        ),
        types::EngineeringPayload::Ack(a) => proto::EngineeringPayload::Ack(ack_to_wire(a)),
        types::EngineeringPayload::Result(r) => proto::EngineeringPayload::Result(
            proto::EngineeringResult {
                status: r.status.code(),
                detail: r.detail,
                outputs: r.outputs,
                blob: r.blob,
            },
        ),
    }
}

pub open spec fn engineering_to_wire(e: types::Engineering) -> proto::Engineering {
    proto::Engineering {
        payload: match e.payload {
            Some(p) => Some(engineering_payload_to_wire(p)),
            None => None,
        },
    }
}

// A list of state items is rebuilt element by element, so from here up the
// wire form is stated as a relation: `w` is the wire form of `d`.

pub open spec fn state_update_wire(d: types::StateUpdate, w: proto::StateUpdate) -> bool {
    &&& w.local_seq == d.local_seq
    &&& w.items@.len() == d.items@.len()
    &&& forall|i: int| 0 <= i < d.items@.len() ==> w.items@[i] == state_item_to_wire(#[trigger] d.items@[i])
}

pub open spec fn telemetry_payload_wire(d: types::TelemetryPayload, w: proto::TelemetryPayload) -> bool {
    match (d, w) {
        (types::TelemetryPayload::Birth(x), proto::TelemetryPayload::Birth(y)) => y == birth_to_wire(x),
        (types::TelemetryPayload::Heartbeat(x), proto::TelemetryPayload::Heartbeat(y)) => y == heartbeat_to_wire(x),
        (types::TelemetryPayload::Death(x), proto::TelemetryPayload::Death(y)) => y == death_to_wire(x),
        (types::TelemetryPayload::State(x), proto::TelemetryPayload::State(y)) => state_update_wire(x, y),
        (types::TelemetryPayload::Alarm(x), proto::TelemetryPayload::Alarm(y)) => y == alarm_to_wire(x),
        (types::TelemetryPayload::Observation(x), proto::TelemetryPayload::Observation(y)) => y == observation_to_wire(x),
        _ => false,
    }
}

pub open spec fn telemetry_wire(d: types::Telemetry, w: proto::Telemetry) -> bool {
    match (d.payload, w.payload) {
        (None, None) => true,
        (Some(x), Some(y)) => telemetry_payload_wire(x, y),
        _ => false,
    }
}

pub open spec fn payload_wire(d: types::Payload, w: proto::EnvelopePayload) -> bool {
    match (d, w) {
        (types::Payload::Telemetry(x), proto::EnvelopePayload::Telemetry(y)) => telemetry_wire(x, y),
        (types::Payload::Command(x), proto::EnvelopePayload::Command(y)) => y == command_to_wire(x),
        (types::Payload::Config(x), proto::EnvelopePayload::Config(y)) => y == config_to_wire(x),
        (types::Payload::Engineering(x), proto::EnvelopePayload::Engineering(y)) => y == engineering_to_wire(x),
        _ => false,
    }
}

/// `w` is the wire form of the envelope `d`: every field carried over, enums
/// as their codes, identifiers as their text.
pub open spec fn envelope_wire(d: types::Envelope, w: proto::Envelope) -> bool {
    &&& w.proto_ver == d.proto_ver
    &&& w.msg_class == d.msg_class.code()
    &&& w.sender_id == d.sender_id.text()
    &&& w.sender_instance == d.sender_instance.text()
    &&& w.counter == d.counter
    &&& w.ttl_ms == d.ttl_ms
    &&& w.transaction_id == d.transaction_id.text()
    &&& w.idempotency_key == d.idempotency_key.text()
    &&& w.delivery_profile == d.delivery_profile.code()
    &&& w.topic == d.topic
    &&& w.target == d.target
    &&& w.scope == d.scope
    &&& match (d.payload, w.payload) {
        (None, None) => true,
        (Some(x), Some(y)) => payload_wire(x, y),
        _ => false,
    }
    &&& w.sig_alg == d.sig_alg.code()
    &&& w.signature == d.signature
    &&& w.key_id == d.key_id
    &&& w.auth_context == d.auth_context
}

// ---------- domain to wire ----------

fn ack_core_to_proto(a: types::Ack) -> (r: proto::Ack)
    ensures
        r == ack_to_wire(a),
{
    proto::Ack { status: a.status.to_i32(), detail: a.detail }
}

fn op_result_core_to_proto(c: types::OpResult) -> (r: proto::OpResult)
    ensures
        r == op_result_to_wire(c),
{
    proto::OpResult { status: c.status.to_i32(), detail: c.detail }
}

fn state_value_core_to_proto(c: types::StateValue) -> (r: proto::StateItemValue)
    ensures
        r == state_value_to_wire(c),
{
    match c {
        types::StateValue::F64(v) => proto::StateItemValue::F64(v),
        types::StateValue::I64(v) => proto::StateItemValue::I64(v),
        types::StateValue::U64(v) => proto::StateItemValue::U64(v),
        types::StateValue::B(v) => proto::StateItemValue::B(v),
        types::StateValue::S(v) => proto::StateItemValue::S(v),
        types::StateValue::Blob(v) => proto::StateItemValue::Blob(v),
    }
}

fn state_item_core_to_proto(c: types::StateItem) -> (r: proto::StateItem)
    ensures
        r == state_item_to_wire(c),
{
    let value = match c.value {
        Some(v) => Some(state_value_core_to_proto(v)),
        None => None,
    };
    proto::StateItem { key: c.key, value, unit: c.unit, quality: c.quality.to_i32() }
}

fn state_items_core_to_proto(items: Vec<types::StateItem>) -> (r: Vec<proto::StateItem>)
    ensures
        r@.len() == items@.len(),
        forall|i: int| 0 <= i < items@.len() ==> r@[i] == state_item_to_wire(#[trigger] items@[i]),
{
    let n = items.len();
    let mut rest = items;
    let mut rev: Vec<types::StateItem> = Vec::new();
    while rest.len() > 0
        invariant
            n == items@.len(),
            rest@.len() + rev@.len() == n,
            rest@ == items@.subrange(0, rest@.len() as int),
            forall|j: int| 0 <= j < rev@.len() ==> #[trigger] rev@[j] == items@[n - 1 - j],
        decreases rest@.len(),
    {
        let x = rest.pop().unwrap();
        rev.push(x);
    }
    let mut out: Vec<proto::StateItem> = Vec::new();
    while rev.len() > 0
        invariant
            n == items@.len(),
            out@.len() + rev@.len() == n,
            forall|j: int| 0 <= j < rev@.len() ==> #[trigger] rev@[j] == items@[n - 1 - j],
            forall|i: int| 0 <= i < out@.len() ==> out@[i] == state_item_to_wire(#[trigger] items@[i]),
        decreases rev@.len(),
    {
        let x = rev.pop().unwrap();
        out.push(state_item_core_to_proto(x));
    }
    out
}

fn telemetry_payload_core_to_proto(c: types::TelemetryPayload) -> (r: proto::TelemetryPayload)
    ensures
        telemetry_payload_wire(c, r),
{
    match c {
        types::TelemetryPayload::Birth(b) => proto::TelemetryPayload::Birth(
            proto::LifecycleBirth {
                vendor: b.vendor,
                model: b.model,
                serial: b.serial,
                hw_rev: b.hw_rev,
                fw_rev: b.fw_rev,
                uptime_ms: b.uptime_ms,
                capabilities: b.capabilities,
            },
        ),
        types::TelemetryPayload::Heartbeat(h) => proto::TelemetryPayload::Heartbeat(
            proto::LifecycleHeartbeat { uptime_ms: h.uptime_ms, health: h.health.to_i32() },
        ),
        types::TelemetryPayload::Death(d) => proto::TelemetryPayload::Death(
            proto::LifecycleDeath { reason: d.reason.to_i32(), uptime_ms: d.uptime_ms, detail: d.detail },
        ),
        types::TelemetryPayload::State(s) => proto::TelemetryPayload::State(
            proto::StateUpdate { local_seq: s.local_seq, items: state_items_core_to_proto(s.items) },
        ),
        types::TelemetryPayload::Alarm(a) => proto::TelemetryPayload::Alarm(
            proto::Alarm {
                severity: a.severity.to_i32(),
                code: a.code,
                summary: a.summary,
                detail: a.detail,
                related_key: a.related_key,
                recommended_action: a.recommended_action,
            },
        ),
        types::TelemetryPayload::Observation(o) => {
            let subject = match o.subject {
                Some(s) => Some(proto::Subject { subject_id: s.subject_id }),
                None => None,
            };
            proto::TelemetryPayload::Observation(
                proto::Observation {
                    subject,
                    observation_type: o.observation_type.to_i32(),
                    confidence_pct: o.confidence_pct,
                    summary: o.summary,
                    detail: o.detail,
                },
            )
        },
    }
}

fn telemetry_core_to_proto(c: types::Telemetry) -> (r: proto::Telemetry)
    ensures
        telemetry_wire(c, r),
{
    match c.payload {
        Some(p) => proto::Telemetry { payload: Some(telemetry_payload_core_to_proto(p)) },
        None => proto::Telemetry { payload: None },
    }
}

fn command_payload_core_to_proto(c: types::CommandPayload) -> (r: proto::CommandPayload)
    ensures
        r == command_payload_to_wire(c),
{
    match c {
        types::CommandPayload::Request(r) => proto::CommandPayload::Request(
            proto::CommandRequest {
                request_id: r.request_id,
                command: r.command,
                target: r.target,
                params: r.params,
                blob: r.blob,
                requires_confirmation: r.requires_confirmation,
            },
        ),
        types::CommandPayload::Ack(a) => proto::CommandPayload::Ack(ack_core_to_proto(a)),
        types::CommandPayload::Result(r) => proto::CommandPayload::Result(op_result_core_to_proto(r)),
    }
}

fn command_core_to_proto(c: types::Command) -> (r: proto::Command)
    ensures
        r == command_to_wire(c),
{
    match c.payload {
        Some(p) => proto::Command { payload: Some(command_payload_core_to_proto(p)) },
        None => proto::Command { payload: None },
    }
}

fn config_payload_core_to_proto(c: types::ConfigPayload) -> (r: proto::ConfigPayload)
    ensures
        r == config_payload_to_wire(c),
{
    match c {
        types::ConfigPayload::Query(q) => proto::ConfigPayload::Query(proto::ConfigQuery { keys: q.keys }),
        types::ConfigPayload::Snapshot(s) => proto::ConfigPayload::Snapshot(
            proto::ConfigSnapshot { config_version: s.config_version, params: s.params },
        ),
        types::ConfigPayload::Update(u) => proto::ConfigPayload::Update(
            proto::ConfigUpdate { update_id: u.update_id, strict: u.strict, params: u.params },
        ),
        types::ConfigPayload::Ack(a) => proto::ConfigPayload::Ack(ack_core_to_proto(a)),
        types::ConfigPayload::Result(r) => proto::ConfigPayload::Result(op_result_core_to_proto(r)),
    }
}

fn config_core_to_proto(c: types::Config) -> (r: proto::Config)
    ensures
        r == config_to_wire(c),
{
    match c.payload {
        Some(p) => proto::Config { payload: Some(config_payload_core_to_proto(p)) },
        None => proto::Config { payload: None },
    }
}

fn engineering_payload_core_to_proto(c: types::EngineeringPayload) -> (r: proto::EngineeringPayload)
    ensures
        r == engineering_payload_to_wire(c),
{
    match c {
        types::EngineeringPayload::Request(r) => proto::EngineeringPayload::Request(
            proto::EngineeringRequest {
                request_id: r.request_id,
                action: r.action,
                target: r.target,
                params: r.params,
                blob: r.blob,
                requires_confirmation: r.requires_confirmation,
            },
        ),
        types::EngineeringPayload::Ack(a) => proto::EngineeringPayload::Ack(ack_core_to_proto(a)),
        types::EngineeringPayload::Result(r) => proto::EngineeringPayload::Result(
            proto::EngineeringResult {
                status: r.status.to_i32(),
                detail: r.detail,
                outputs: r.outputs,
                blob: r.blob,
            },
        ),
    }
}

fn engineering_core_to_proto(c: types::Engineering) -> (r: proto::Engineering)
    ensures
        r == engineering_to_wire(c),
{
    match c.payload {
        Some(p) => proto::Engineering { payload: Some(engineering_payload_core_to_proto(p)) },
        None => proto::Engineering { payload: None },
    }
}

fn payload_core_to_proto(c: types::Payload) -> (r: proto::EnvelopePayload)
    ensures
        payload_wire(c, r),
{
    match c {
        types::Payload::Telemetry(t) => proto::EnvelopePayload::Telemetry(telemetry_core_to_proto(t)),
        types::Payload::Command(c) => proto::EnvelopePayload::Command(command_core_to_proto(c)),
        types::Payload::Config(c) => proto::EnvelopePayload::Config(config_core_to_proto(c)),
        types::Payload::Engineering(e) => proto::EnvelopePayload::Engineering(engineering_core_to_proto(e)),
    }
}

/// The wire form of an envelope.
pub fn envelope_core_to_proto(c: types::Envelope) -> (r: proto::Envelope)
    ensures
        envelope_wire(c, r),
{
    let payload = match c.payload {
        Some(p) => Some(payload_core_to_proto(p)),
        None => None,
    };
    proto::Envelope {
        proto_ver: c.proto_ver,
        msg_class: c.msg_class.to_i32(),
        sender_id: c.sender_id.into_string(),
        sender_instance: c.sender_instance.into_string(),
        counter: c.counter,
        ttl_ms: c.ttl_ms,
        transaction_id: c.transaction_id.into_string(),
        idempotency_key: c.idempotency_key.into_string(),
        delivery_profile: c.delivery_profile.to_i32(),
        topic: c.topic,
        target: c.target,
        scope: c.scope,
        payload,
        sig_alg: c.sig_alg.to_i32(),
        signature: c.signature,
        key_id: c.key_id,
        auth_context: c.auth_context,
    }
}

// ---------- wire to domain ----------

fn ack_proto_to_core(p: proto::Ack) -> (r: types::Ack)
    ensures
        ack_to_wire(r) == p,
        r.status.wf(),
{
    types::Ack { status: AckStatus::from_i32(p.status), detail: p.detail }
}

fn op_result_proto_to_core(p: proto::OpResult) -> (r: types::OpResult)
    ensures
        op_result_to_wire(r) == p,
        r.status.wf(),
{
    types::OpResult { status: ResultStatus::from_i32(p.status), detail: p.detail }
}

fn state_value_proto_to_core(p: proto::StateItemValue) -> (r: types::StateValue)
    ensures
        state_value_to_wire(r) == p,
{
    match p {
        proto::StateItemValue::F64(v) => types::StateValue::F64(v),
        proto::StateItemValue::I64(v) => types::StateValue::I64(v),
        proto::StateItemValue::U64(v) => types::StateValue::U64(v),
        proto::StateItemValue::B(v) => types::StateValue::B(v),
        proto::StateItemValue::S(v) => types::StateValue::S(v),
        proto::StateItemValue::Blob(v) => types::StateValue::Blob(v),
    }
}

fn state_item_proto_to_core(p: proto::StateItem) -> (r: types::StateItem)
    ensures
        state_item_to_wire(r) == p,
        r.quality.wf(),
{
    let value = match p.value {
        Some(v) => Some(state_value_proto_to_core(v)),
        None => None,
    };
    types::StateItem { key: p.key, value, unit: p.unit, quality: Quality::from_i32(p.quality) }
}

fn state_items_proto_to_core(items: Vec<proto::StateItem>) -> (r: Vec<types::StateItem>)
    ensures
        r@.len() == items@.len(),
        forall|i: int| 0 <= i < items@.len() ==> state_item_to_wire(#[trigger] r@[i]) == items@[i],
        forall|i: int| 0 <= i < items@.len() ==> (#[trigger] r@[i]).quality.wf(),
{
    let n = items.len();
    let mut rest = items;
    let mut rev: Vec<proto::StateItem> = Vec::new();
    while rest.len() > 0
        invariant
            n == items@.len(),
            rest@.len() + rev@.len() == n,
            rest@ == items@.subrange(0, rest@.len() as int),
            forall|j: int| 0 <= j < rev@.len() ==> #[trigger] rev@[j] == items@[n - 1 - j],
        decreases rest@.len(),
    {
        let x = rest.pop().unwrap();
        rev.push(x);
    }
    let mut out: Vec<types::StateItem> = Vec::new();
    while rev.len() > 0
        invariant
            n == items@.len(),
            out@.len() + rev@.len() == n,
            forall|j: int| 0 <= j < rev@.len() ==> #[trigger] rev@[j] == items@[n - 1 - j],
            forall|i: int| 0 <= i < out@.len() ==> state_item_to_wire(#[trigger] out@[i]) == items@[i],
            forall|i: int| 0 <= i < out@.len() ==> (#[trigger] out@[i]).quality.wf(),
        decreases rev@.len(),
    {
        let x = rev.pop().unwrap();
        out.push(state_item_proto_to_core(x));
    }
    out
}

fn telemetry_payload_proto_to_core(p: proto::TelemetryPayload) -> (r: Result<types::TelemetryPayload, WireError>)
    ensures
        r is Ok,
        telemetry_payload_wire(r->Ok_0, p),
        r->Ok_0.wf(),
{
    Ok(match p {
        proto::TelemetryPayload::Birth(b) => types::TelemetryPayload::Birth(
            types::LifecycleBirth {
                vendor: b.vendor,
                model: b.model,
                serial: b.serial,
                hw_rev: b.hw_rev,
                fw_rev: b.fw_rev,
                uptime_ms: b.uptime_ms,
                capabilities: b.capabilities,
            },
        ),
        proto::TelemetryPayload::Heartbeat(h) => types::TelemetryPayload::Heartbeat(
            types::LifecycleHeartbeat { uptime_ms: h.uptime_ms, health: Health::from_i32(h.health) },
        ),
        proto::TelemetryPayload::Death(d) => types::TelemetryPayload::Death(
            types::LifecycleDeath { reason: DeathReason::from_i32(d.reason), uptime_ms: d.uptime_ms, detail: d.detail },
        ),
        proto::TelemetryPayload::State(s) => types::TelemetryPayload::State(
            types::StateUpdate { local_seq: s.local_seq, items: state_items_proto_to_core(s.items) },
        ),
        proto::TelemetryPayload::Alarm(a) => types::TelemetryPayload::Alarm(
            types::Alarm {
                severity: AlarmSeverity::from_i32(a.severity),
                code: a.code,
                summary: a.summary,
                detail: a.detail,
                related_key: a.related_key,
                recommended_action: a.recommended_action,
            },
        ),
        proto::TelemetryPayload::Observation(o) => {
            let subject = match o.subject {
                Some(s) => Some(types::Subject { subject_id: s.subject_id }),
                None => None,
            };
            types::TelemetryPayload::Observation(
                types::Observation {
                    subject,
                    observation_type: ObservationType::from_i32(o.observation_type),
                    confidence_pct: o.confidence_pct,
                    summary: o.summary,
                    detail: o.detail,
                },
            )
        },
    })
}

fn telemetry_proto_to_core(p: proto::Telemetry) -> (r: Result<types::Telemetry, WireError>)
    ensures
        r is Ok,
        telemetry_wire(r->Ok_0, p),
        r->Ok_0.payload matches Some(x) ==> x.wf(),
{
    match p.payload {
        Some(x) => {
            let t = telemetry_payload_proto_to_core(x)?;
            Ok(types::Telemetry { payload: Some(t) })
        },
        None => Ok(types::Telemetry { payload: None }),
    }
}

fn command_payload_proto_to_core(p: proto::CommandPayload) -> (r: Result<types::CommandPayload, WireError>)
    ensures
        r is Ok,
        command_payload_to_wire(r->Ok_0) == p,
        r->Ok_0.wf(),
{
    Ok(match p {
        proto::CommandPayload::Request(r) => {
            proof {
                use_type_invariant(&r.params);
            }
            types::CommandPayload::Request(
                types::CommandRequest {
                    request_id: r.request_id,
                    command: r.command,
                    target: r.target,
                    params: r.params,
                    blob: r.blob,
                    requires_confirmation: r.requires_confirmation,
                },
            )
        },
        proto::CommandPayload::Ack(a) => types::CommandPayload::Ack(ack_proto_to_core(a)),
        proto::CommandPayload::Result(r) => types::CommandPayload::Result(op_result_proto_to_core(r)),
    })
}

fn command_proto_to_core(p: proto::Command) -> (r: Result<types::Command, WireError>)
    ensures
        r is Ok,
        command_to_wire(r->Ok_0) == p,
        r->Ok_0.payload matches Some(x) ==> x.wf(),
{
    match p.payload {
        Some(x) => {
            let c = command_payload_proto_to_core(x)?;
            Ok(types::Command { payload: Some(c) })
        },
        None => Ok(types::Command { payload: None }),
    }
}

fn config_payload_proto_to_core(p: proto::ConfigPayload) -> (r: Result<types::ConfigPayload, WireError>)
    ensures
        r is Ok,
        config_payload_to_wire(r->Ok_0) == p,
        r->Ok_0.wf(),
{
    Ok(match p {
        proto::ConfigPayload::Query(q) => types::ConfigPayload::Query(types::ConfigQuery { keys: q.keys }),
        proto::ConfigPayload::Snapshot(s) => {
            proof {
                use_type_invariant(&s.params);
            }
            types::ConfigPayload::Snapshot(
                types::ConfigSnapshot { config_version: s.config_version, params: s.params },
            )
        },
        proto::ConfigPayload::Update(u) => {
            proof {
                use_type_invariant(&u.params);
            }
            types::ConfigPayload::Update(
                types::ConfigUpdate { update_id: u.update_id, strict: u.strict, params: u.params },
            )
        },
        proto::ConfigPayload::Ack(a) => types::ConfigPayload::Ack(ack_proto_to_core(a)),
        proto::ConfigPayload::Result(r) => types::ConfigPayload::Result(op_result_proto_to_core(r)),
    })
}

fn config_proto_to_core(p: proto::Config) -> (r: Result<types::Config, WireError>)
    ensures
        r is Ok,
        config_to_wire(r->Ok_0) == p,
        r->Ok_0.payload matches Some(x) ==> x.wf(),
{
    match p.payload {
        Some(x) => {
            let c = config_payload_proto_to_core(x)?;
            Ok(types::Config { payload: Some(c) })
        },
        None => Ok(types::Config { payload: None }),
    }
}

fn engineering_payload_proto_to_core(p: proto::EngineeringPayload) -> (r: Result<types::EngineeringPayload, WireError>)
    ensures
        r is Ok,
        engineering_payload_to_wire(r->Ok_0) == p,
        r->Ok_0.wf(),
{
    Ok(match p {
        proto::EngineeringPayload::Request(r) => {
            proof {
                use_type_invariant(&r.params);
            }
            types::EngineeringPayload::Request(
                types::EngineeringRequest {
                    request_id: r.request_id,
                    action: r.action,
                    target: r.target,
                    params: r.params,
                    blob: r.blob,
                    requires_confirmation: r.requires_confirmation,
                },
            )
        },
        proto::EngineeringPayload::Ack(a) => types::EngineeringPayload::Ack(ack_proto_to_core(a)),
        proto::EngineeringPayload::Result(r) => {
            proof {
                use_type_invariant(&r.outputs);
            }
            types::EngineeringPayload::Result(
                types::EngineeringResult {
                    status: ResultStatus::from_i32(r.status),
                    detail: r.detail,
                    outputs: r.outputs,
                    blob: r.blob,
                },
            )
        },
    })
}

fn engineering_proto_to_core(p: proto::Engineering) -> (r: Result<types::Engineering, WireError>)
    ensures
        r is Ok,
        engineering_to_wire(r->Ok_0) == p,
        r->Ok_0.payload matches Some(x) ==> x.wf(),
{
    match p.payload {
        Some(x) => {
            let e = engineering_payload_proto_to_core(x)?;
            Ok(types::Engineering { payload: Some(e) })
        },
        None => Ok(types::Engineering { payload: None }),
    }
}

fn payload_proto_to_core(p: proto::EnvelopePayload) -> (r: Result<types::Payload, WireError>)
    ensures
        r is Ok,
        payload_wire(r->Ok_0, p),
        r->Ok_0.wf(),
{
    Ok(match p {
        proto::EnvelopePayload::Telemetry(t) => types::Payload::Telemetry(telemetry_proto_to_core(t)?),
        proto::EnvelopePayload::Command(c) => types::Payload::Command(command_proto_to_core(c)?),
        proto::EnvelopePayload::Config(c) => types::Payload::Config(config_proto_to_core(c)?),
        proto::EnvelopePayload::Engineering(e) => types::Payload::Engineering(engineering_proto_to_core(e)?),
    })
}

/// The domain envelope of a wire envelope. Every wire envelope converts:
/// numeric codes without a named value become `Unknown`.
pub fn envelope_proto_to_core(p: proto::Envelope) -> (r: Result<types::Envelope, WireError>)
    ensures
        r is Ok,
        envelope_wire(r->Ok_0, p),
        r->Ok_0.wf(),
{
    let payload = match p.payload {
        Some(x) => Some(payload_proto_to_core(x)?),
        None => None,
    };
    Ok(types::Envelope {
        proto_ver: p.proto_ver,
        msg_class: MsgClass::from_i32(p.msg_class),
        sender_id: DeviceId::new(p.sender_id),
        sender_instance: InstanceId::new(p.sender_instance),
        counter: p.counter,
        ttl_ms: p.ttl_ms,
        transaction_id: TransactionId::new(p.transaction_id),
        idempotency_key: IdempotencyKey::new(p.idempotency_key),
        delivery_profile: DeliveryProfile::from_i32(p.delivery_profile),
        topic: p.topic,
        target: p.target,
        scope: p.scope,
        payload,
        sig_alg: SigAlg::from_i32(p.sig_alg),
        signature: p.signature,
        key_id: p.key_id,
        auth_context: p.auth_context,
    })
}

// ---------- round trip ----------

// Two domain values are the same when all their fields are equal; lists of
// state items are compared element by element.

pub open spec fn state_update_same(a: types::StateUpdate, b: types::StateUpdate) -> bool {
    a.local_seq == b.local_seq && a.items@ == b.items@
}

pub open spec fn telemetry_payload_same(a: types::TelemetryPayload, b: types::TelemetryPayload) -> bool {
    match (a, b) {
        (types::TelemetryPayload::State(x), types::TelemetryPayload::State(y)) => state_update_same(x, y),
        _ => a == b,
    }
}

pub open spec fn telemetry_same(a: types::Telemetry, b: types::Telemetry) -> bool {
    match (a.payload, b.payload) {
        (None, None) => true,
        (Some(x), Some(y)) => telemetry_payload_same(x, y),
        _ => false,
    }
}

pub open spec fn payload_same(a: types::Payload, b: types::Payload) -> bool {
    match (a, b) {
        (types::Payload::Telemetry(x), types::Payload::Telemetry(y)) => telemetry_same(x, y),
        _ => a == b,
    }
}

pub open spec fn envelope_same(a: types::Envelope, b: types::Envelope) -> bool {
    &&& a == (types::Envelope { payload: a.payload, ..b })
    &&& match (a.payload, b.payload) {
        (None, None) => true,
        (Some(x), Some(y)) => payload_same(x, y),
        _ => false,
    }
}

/// Round trip for telemetry payloads of every sub-variant: two well-formed
/// payloads with the same wire form are the same payload (state items in
/// the same order, float bit patterns kept).
pub proof fn lemma_telemetry_payload_round_trip(a: types::TelemetryPayload, b: types::TelemetryPayload, w: proto::TelemetryPayload)
    requires
        a.wf(),
        b.wf(),
        telemetry_payload_wire(a, w),
        telemetry_payload_wire(b, w),
    ensures
        telemetry_payload_same(a, b),
{
    match (a, b) {
        (types::TelemetryPayload::State(x), types::TelemetryPayload::State(y)) => {
            assert forall|i: int| 0 <= i < x.items@.len() implies x.items@[i] == y.items@[i] by {
                let (p, q) = (x.items@[i], y.items@[i]);
                assert(state_item_to_wire(p) == state_item_to_wire(q));
                assert(p.quality.wf() && q.quality.wf());
                assert(p.quality == q.quality);
                assert(p.value == q.value);
            }
            assert(x.items@ =~= y.items@);
        },
        _ => {},
    }
}

proof fn lemma_payload_back(a: types::Payload, b: types::Payload, w: proto::EnvelopePayload)
    requires
        a.wf(),
        b.wf(),
        payload_wire(a, w),
        payload_wire(b, w),
    ensures
        payload_same(a, b),
{
    match (a, b) {
        (types::Payload::Telemetry(x), types::Payload::Telemetry(y)) => {
            match (x.payload, y.payload, w) {
                (Some(p), Some(q), proto::EnvelopePayload::Telemetry(wt)) => {
                    lemma_telemetry_payload_round_trip(p, q, wt.payload.unwrap());
                },
                _ => {},
            }
        },
        (types::Payload::Command(x), types::Payload::Command(y)) => {
            assert(x == y);
        },
        (types::Payload::Config(x), types::Payload::Config(y)) => {
            assert(x == y);
        },
        (types::Payload::Engineering(x), types::Payload::Engineering(y)) => {
            assert(x == y);
        },
        _ => {},
    }
}

/// Round trip: a well-formed envelope converted to the wire and back is the
/// same envelope, including enumeration values that hold unrecognised codes.
/// `w` is what `envelope_core_to_proto` gives for `e`, and `back` what
/// `envelope_proto_to_core` gives for `w`.
pub proof fn lemma_round_trip(e: types::Envelope, w: proto::Envelope, back: types::Envelope)
    requires
        e.wf(),
        envelope_wire(e, w),
        back.wf(),
        envelope_wire(back, w),
    ensures
        envelope_same(e, back),
{
    DeviceId::lemma_text_determines(e.sender_id, back.sender_id);
    InstanceId::lemma_text_determines(e.sender_instance, back.sender_instance);
    TransactionId::lemma_text_determines(e.transaction_id, back.transaction_id);
    IdempotencyKey::lemma_text_determines(e.idempotency_key, back.idempotency_key);
    match (e.payload, back.payload) {
        (Some(x), Some(y)) => {
            lemma_payload_back(x, y, w.payload.unwrap());
        },
        _ => {},
    }
}

/// Round trip for command payloads: a well-formed payload is the only
/// well-formed payload with its wire form.
pub proof fn lemma_command_payload_round_trip(c: types::CommandPayload, back: types::CommandPayload)
    requires
        c.wf(),
        back.wf(),
        command_payload_to_wire(back) == command_payload_to_wire(c),
    ensures
        back == c,
{
}

/// Round trip for config payloads: a well-formed payload is the only
/// well-formed payload with its wire form.
pub proof fn lemma_config_payload_round_trip(c: types::ConfigPayload, back: types::ConfigPayload)
    requires
        c.wf(),
        back.wf(),
        config_payload_to_wire(back) == config_payload_to_wire(c),
    ensures
        back == c,
{
}

/// Round trip for engineering payloads: a well-formed payload is the only
/// well-formed payload with its wire form.
pub proof fn lemma_engineering_payload_round_trip(e: types::EngineeringPayload, back: types::EngineeringPayload)
    requires
        e.wf(),
        back.wf(),
        engineering_payload_to_wire(back) == engineering_payload_to_wire(e),
    ensures
        back == e,
{
}

} // verus!
