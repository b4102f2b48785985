use crate::enums::SigAlg;
use crate::strmap::{lemma_same_map_same_pairs, lemma_str_bytes_injective, str_bytes, StrMap};
use crate::types::{
    Ack, Alarm, Command, CommandPayload, CommandRequest, Config, ConfigPayload, Engineering,
    EngineeringPayload, EngineeringRequest, EngineeringResult, Envelope, LifecycleBirth,
    LifecycleDeath, LifecycleHeartbeat, Observation, OpResult, Payload, StateItem, StateUpdate,
    StateValue, Telemetry, TelemetryPayload,
};
use sha2::{Digest, Sha256};
use vstd::prelude::*;
use vstd::seq_lib::lemma_concat_associative;
use vstd::utf8::encode_utf8;

verus! {

/// Domain-separation tag, written first into every signing input.
pub const DOMAIN_TAG: &'static str = "HMFv1:envelope-signature";

// ---------- primitives ----------

pub open spec fn be_u32(v: u32) -> Seq<u8> {
    seq![(v >> 24u32) as u8, (v >> 16u32) as u8, (v >> 8u32) as u8, v as u8]
}

pub open spec fn be_u64(v: u64) -> Seq<u8> {
    seq![
        (v >> 56u64) as u8, (v >> 48u64) as u8, (v >> 40u64) as u8, (v >> 32u64) as u8,
        (v >> 24u64) as u8, (v >> 16u64) as u8, (v >> 8u64) as u8, v as u8,
    ]
}

pub open spec fn be_i32(v: i32) -> Seq<u8> {
    be_u32(v as u32)
}

pub open spec fn be_i64(v: i64) -> Seq<u8> {
    be_u64(v as u64)
}

pub open spec fn enc_bool(b: bool) -> Seq<u8> {
    seq![if b { 1u8 } else { 0u8 }]
}

/// A byte string: its length as a big-endian `u32`, then the bytes.
pub open spec fn enc_bytes(b: Seq<u8>) -> Seq<u8> {
    be_u32(b.len() as u32) + b
}

pub open spec fn enc_str(s: String) -> Seq<u8> {
    enc_bytes(str_bytes(s))
}

pub open spec fn enc_strs_body(s: Seq<String>) -> Seq<u8>
    decreases s.len(),
{
    if s.len() == 0 {
        Seq::empty()
    } else {
        enc_strs_body(s.drop_last()) + enc_str(s.last())
    }
}

/// A list of strings: the count, then each string in order.
pub open spec fn enc_strs(s: Seq<String>) -> Seq<u8> {
    be_u32(s.len() as u32) + enc_strs_body(s)
}

pub open spec fn enc_pairs_body(ps: Seq<(String, String)>) -> Seq<u8>
    decreases ps.len(),
{
    if ps.len() == 0 {
        Seq::empty()
    } else {
        enc_pairs_body(ps.drop_last()) + enc_str(ps.last().0) + enc_str(ps.last().1)
    }
}

/// A map: the count, then each key and value, in increasing key order.
pub open spec fn enc_map(m: StrMap) -> Seq<u8> {
    be_u32(m.pairs().len() as u32) + enc_pairs_body(m.pairs())
}

/// The digest that SHA-256 gives for `b`.
pub uninterp spec fn sha256_of(b: Seq<u8>) -> Seq<u8>;

/// Relies on sha2's `Sha256` (`new`, `update`, `finalize`): the SHA-256 digest
/// of the bytes, a function of the bytes alone.
#[verifier::external_body]
fn sha256(bytes: &[u8]) -> (r: [u8; 32])
    ensures
        r@ == sha256_of(bytes@),
{
    let mut h = Sha256::new();
    h.update(bytes);
    h.finalize().into()
}

fn put_u8(buf: &mut Vec<u8>, v: u8)
    ensures
        final(buf)@ == old(buf)@.push(v),
{
    buf.push(v);
}

fn put_raw(buf: &mut Vec<u8>, b: &[u8])
    ensures
        final(buf)@ == old(buf)@ + b@,
{
    let mut i: usize = 0;
    while i < b.len()
        invariant
            i <= b@.len(),
            buf@ == old(buf)@ + b@.subrange(0, i as int),
        decreases b@.len() - i,
    {
        buf.push(b[i]);
        assert(b@.subrange(0, i + 1) =~= b@.subrange(0, i as int).push(b@[i as int]));
        i = i + 1;
    }
    assert(b@.subrange(0, b@.len() as int) =~= b@);
}

fn put_u32(buf: &mut Vec<u8>, v: u32)
    ensures
        final(buf)@ == old(buf)@ + be_u32(v),
{
    buf.push((v >> 24u32) as u8);
    buf.push((v >> 16u32) as u8);
    buf.push((v >> 8u32) as u8);
    buf.push(v as u8);
    assert(buf@ =~= old(buf)@ + be_u32(v));
}

fn put_u64(buf: &mut Vec<u8>, v: u64)
    ensures
        final(buf)@ == old(buf)@ + be_u64(v),
{
    buf.push((v >> 56u64) as u8);
    buf.push((v >> 48u64) as u8);
    buf.push((v >> 40u64) as u8);
    buf.push((v >> 32u64) as u8);
    buf.push((v >> 24u64) as u8);
    buf.push((v >> 16u64) as u8);
    buf.push((v >> 8u64) as u8);
    buf.push(v as u8);
    assert(buf@ =~= old(buf)@ + be_u64(v));
}

fn put_i32(buf: &mut Vec<u8>, v: i32)
    ensures
        final(buf)@ == old(buf)@ + be_i32(v),
{
    put_u32(buf, v as u32);
}

fn put_i64(buf: &mut Vec<u8>, v: i64)
    ensures
        final(buf)@ == old(buf)@ + be_i64(v),
{
    put_u64(buf, v as u64);
}

fn put_bool(buf: &mut Vec<u8>, v: bool)
    ensures
        final(buf)@ == old(buf)@ + enc_bool(v),
{
    buf.push(if v { 1 } else { 0 });
    assert(buf@ =~= old(buf)@ + enc_bool(v));
}

fn put_bytes(buf: &mut Vec<u8>, b: &[u8])
    ensures
        final(buf)@ == old(buf)@ + enc_bytes(b@),
{
    put_u32(buf, b.len() as u32);
    put_raw(buf, b);
    assert(buf@ =~= old(buf)@ + enc_bytes(b@));
}

fn put_str(buf: &mut Vec<u8>, s: &str)
    ensures
        final(buf)@ == old(buf)@ + enc_bytes(encode_utf8(s@)),
{
    put_bytes(buf, s.as_bytes());
}

fn put_strs(buf: &mut Vec<u8>, v: &Vec<String>)
    ensures
        final(buf)@ == old(buf)@ + enc_strs(v@),
{
    put_u32(buf, v.len() as u32);
    let ghost start = buf@;
    let mut i: usize = 0;
    while i < v.len()
        invariant
            i <= v@.len(),
            start == old(buf)@ + be_u32(v@.len() as u32),
            buf@ == start + enc_strs_body(v@.subrange(0, i as int)),
        decreases v@.len() - i,
    {
        put_str(buf, v[i].as_str());
        proof {
            let s = v@.subrange(0, i + 1);
            assert(s.drop_last() =~= v@.subrange(0, i as int));
            assert(buf@ =~= start + enc_strs_body(s));
        }
        i = i + 1;
    }
    assert(v@.subrange(0, v@.len() as int) =~= v@);
    assert(buf@ =~= old(buf)@ + enc_strs(v@));
}

/// Writes the map's pairs in increasing key order; the map's representation
/// is already sorted, so no sort is needed here.
fn put_map_sorted(buf: &mut Vec<u8>, map: &StrMap)
    ensures
        final(buf)@ == old(buf)@ + enc_map(*map),
{
    let v = map.entries();
    put_u32(buf, v.len() as u32);
    let ghost start = buf@;
    let mut i: usize = 0;
    while i < v.len()
        invariant
            i <= v@.len(),
            v@ == map.pairs(),
            start == old(buf)@ + be_u32(v@.len() as u32),
            buf@ == start + enc_pairs_body(v@.subrange(0, i as int)),
        decreases v@.len() - i,
    {
        put_str(buf, v[i].0.as_str());
        put_str(buf, v[i].1.as_str());
        proof {
            let s = v@.subrange(0, i + 1);
            assert(s.drop_last() =~= v@.subrange(0, i as int));
            assert(buf@ =~= start + enc_pairs_body(s));
        }
        i = i + 1;
    }
    assert(v@.subrange(0, v@.len() as int) =~= v@);
    assert(buf@ =~= old(buf)@ + enc_map(*map));
}


// ---------- payload encoding ----------

pub open spec fn canon_ack(a: Ack) -> Seq<u8> {
    be_i32(a.status.code()) + enc_str(a.detail)
}

pub open spec fn canon_op_result(r: OpResult) -> Seq<u8> {
    be_i32(r.status.code()) + enc_str(r.detail)
}

pub open spec fn canon_birth(b: LifecycleBirth) -> Seq<u8> {
    enc_str(b.vendor) + enc_str(b.model) + enc_str(b.serial) + enc_str(b.hw_rev) + enc_str(b.fw_rev)
        + be_u64(b.uptime_ms) + enc_strs(b.capabilities@)
}

pub open spec fn canon_heartbeat(h: LifecycleHeartbeat) -> Seq<u8> {
    be_u64(h.uptime_ms) + be_i32(h.health.code())
}

pub open spec fn canon_death(d: LifecycleDeath) -> Seq<u8> {
    be_i32(d.reason.code()) + be_u64(d.uptime_ms) + enc_str(d.detail)
}

pub open spec fn canon_state_value(v: Option<StateValue>) -> Seq<u8> {
    match v {
        None => seq![0u8],
        Some(StateValue::F64(x)) => seq![1u8] + be_u64(x),
        Some(StateValue::I64(x)) => seq![2u8] + be_i64(x),
        Some(StateValue::U64(x)) => seq![3u8] + be_u64(x),
        Some(StateValue::B(x)) => seq![4u8] + enc_bool(x),
        Some(StateValue::S(x)) => seq![5u8] + enc_str(x),
        Some(StateValue::Blob(x)) => seq![6u8] + enc_bytes(x@),
    }
}

pub open spec fn canon_state_item(it: StateItem) -> Seq<u8> {
    enc_str(it.key) + enc_str(it.unit) + be_i32(it.quality.code()) + canon_state_value(it.value)
}

pub open spec fn canon_items_body(items: Seq<StateItem>) -> Seq<u8>
    decreases items.len(),
{
    if items.len() == 0 {
        Seq::empty()
    } else {
        canon_items_body(items.drop_last()) + canon_state_item(items.last())
    }
}

pub open spec fn canon_state_update(s: StateUpdate) -> Seq<u8> {
    be_u64(s.local_seq) + be_u32(s.items@.len() as u32) + canon_items_body(s.items@)
}

pub open spec fn canon_alarm(a: Alarm) -> Seq<u8> {
    be_i32(a.severity.code()) + enc_str(a.code) + enc_str(a.summary) + enc_str(a.detail)
        + enc_str(a.related_key) + enc_str(a.recommended_action)
}

pub open spec fn canon_observation(o: Observation) -> Seq<u8> {
    (match o.subject {
        None => seq![0u8],
        Some(s) => seq![1u8] + enc_str(s.subject_id),
    }) + be_i32(o.observation_type.code()) + be_u32(o.confidence_pct) + enc_str(o.summary)
        + enc_str(o.detail)
}

pub open spec fn canon_telemetry(t: Telemetry) -> Seq<u8> {
    match t.payload {
        None => seq![0u8],
        Some(TelemetryPayload::Birth(b)) => seq![1u8] + canon_birth(b),
        Some(TelemetryPayload::Heartbeat(h)) => seq![2u8] + canon_heartbeat(h),
        Some(TelemetryPayload::Death(d)) => seq![3u8] + canon_death(d),
        Some(TelemetryPayload::State(s)) => seq![4u8] + canon_state_update(s),
        Some(TelemetryPayload::Alarm(a)) => seq![5u8] + canon_alarm(a),
        Some(TelemetryPayload::Observation(o)) => seq![6u8] + canon_observation(o),
    }
}

pub open spec fn canon_command_request(r: CommandRequest) -> Seq<u8> {
    enc_str(r.request_id) + enc_str(r.command) + enc_str(r.target) + enc_map(r.params)
        + enc_bytes(r.blob@) + enc_bool(r.requires_confirmation)
}

pub open spec fn canon_command(c: Command) -> Seq<u8> {
    match c.payload {
        None => seq![0u8],
        Some(CommandPayload::Request(r)) => seq![1u8] + canon_command_request(r),
        Some(CommandPayload::Ack(a)) => seq![2u8] + canon_ack(a),
        Some(CommandPayload::Result(r)) => seq![3u8] + canon_op_result(r),
    }
}

pub open spec fn canon_config(c: Config) -> Seq<u8> {
    match c.payload {
        None => seq![0u8],
        Some(ConfigPayload::Query(q)) => seq![1u8] + enc_strs(q.keys@),
        Some(ConfigPayload::Snapshot(s)) => seq![2u8] + be_u64(s.config_version) + enc_map(s.params),
        Some(ConfigPayload::Update(u)) => seq![3u8] + enc_str(u.update_id) + enc_bool(u.strict)
            + enc_map(u.params),
        Some(ConfigPayload::Ack(a)) => seq![4u8] + canon_ack(a),
        Some(ConfigPayload::Result(r)) => seq![5u8] + canon_op_result(r),
    }
}

pub open spec fn canon_engineering_request(r: EngineeringRequest) -> Seq<u8> {
    enc_str(r.request_id) + enc_str(r.action) + enc_str(r.target) + enc_map(r.params)
        + enc_bytes(r.blob@) + enc_bool(r.requires_confirmation)
}

pub open spec fn canon_engineering_result(r: EngineeringResult) -> Seq<u8> {
    be_i32(r.status.code()) + enc_str(r.detail) + enc_map(r.outputs) + enc_bytes(r.blob@)
}

pub open spec fn canon_engineering(e: Engineering) -> Seq<u8> {
    match e.payload {
        None => seq![0u8],
        Some(EngineeringPayload::Request(r)) => seq![1u8] + canon_engineering_request(r),
        Some(EngineeringPayload::Ack(a)) => seq![2u8] + canon_ack(a),
        Some(EngineeringPayload::Result(r)) => seq![3u8] + canon_engineering_result(r),
    }
}

/// The canonical encoding of a payload: a domain tag (1 to 4), then the domain.
pub open spec fn canon_payload(p: Payload) -> Seq<u8> {
    match p {
        Payload::Telemetry(t) => seq![1u8] + canon_telemetry(t),
        Payload::Command(c) => seq![2u8] + canon_command(c),
        Payload::Config(c) => seq![3u8] + canon_config(c),
        Payload::Engineering(e) => seq![4u8] + canon_engineering(e),
    }
}

/// The signing input of an envelope; it is defined when a payload is present.
pub open spec fn signing_bytes_of(env: Envelope) -> Seq<u8> {
    enc_bytes(encode_utf8(DOMAIN_TAG@)) + be_u32(env.proto_ver) + be_i32(env.msg_class.code())
        + enc_str(env.sender_id.text()) + enc_str(env.sender_instance.text()) + be_u64(env.counter)
        + be_u32(env.ttl_ms) + enc_str(env.transaction_id.text()) + enc_str(env.idempotency_key.text())
        + be_i32(env.delivery_profile.code()) + enc_str(env.topic) + enc_str(env.target)
        + enc_str(env.scope) + be_i32(env.sig_alg.code()) + enc_str(env.key_id)
        + sha256_of(env.auth_context@) + sha256_of(canon_payload(env.payload.unwrap()))
}

fn canonical_ack(buf: &mut Vec<u8>, a: &Ack)
    ensures
        final(buf)@ == old(buf)@ + canon_ack(*a),
{
    put_i32(buf, a.status.to_i32());
    put_str(buf, a.detail.as_str());
    assert(buf@ =~= old(buf)@ + canon_ack(*a));
}

fn canonical_op_result(buf: &mut Vec<u8>, r: &OpResult)
    ensures
        final(buf)@ == old(buf)@ + canon_op_result(*r),
{
    put_i32(buf, r.status.to_i32());
    put_str(buf, r.detail.as_str());
    assert(buf@ =~= old(buf)@ + canon_op_result(*r));
}

fn canonical_birth(buf: &mut Vec<u8>, b: &LifecycleBirth)
    ensures
        final(buf)@ == old(buf)@ + canon_birth(*b),
{
    put_str(buf, b.vendor.as_str());
    put_str(buf, b.model.as_str());
    put_str(buf, b.serial.as_str());
    put_str(buf, b.hw_rev.as_str());
    put_str(buf, b.fw_rev.as_str());
    put_u64(buf, b.uptime_ms);
    put_strs(buf, &b.capabilities);
    assert(buf@ =~= old(buf)@ + canon_birth(*b));
}

fn canonical_heartbeat(buf: &mut Vec<u8>, h: &LifecycleHeartbeat)
    ensures
        final(buf)@ == old(buf)@ + canon_heartbeat(*h),
{
    put_u64(buf, h.uptime_ms);
    put_i32(buf, h.health.to_i32());
    assert(buf@ =~= old(buf)@ + canon_heartbeat(*h));
}

fn canonical_death(buf: &mut Vec<u8>, d: &LifecycleDeath)
    ensures
        final(buf)@ == old(buf)@ + canon_death(*d),
{
    put_i32(buf, d.reason.to_i32());
    put_u64(buf, d.uptime_ms);
    put_str(buf, d.detail.as_str());
    assert(buf@ =~= old(buf)@ + canon_death(*d));
}

fn canonical_state_item(buf: &mut Vec<u8>, it: &StateItem)
    ensures
        final(buf)@ == old(buf)@ + canon_state_item(*it),
{
    put_str(buf, it.key.as_str());
    put_str(buf, it.unit.as_str());
    put_i32(buf, it.quality.to_i32());
    let ghost mid = buf@;
    match &it.value {
        None => put_u8(buf, 0),
        Some(StateValue::F64(v)) => {
            put_u8(buf, 1);
            put_u64(buf, *v);
        },
        Some(StateValue::I64(v)) => {
            put_u8(buf, 2);
            put_i64(buf, *v);
        },
        Some(StateValue::U64(v)) => {
            put_u8(buf, 3);
            put_u64(buf, *v);
        },
        Some(StateValue::B(v)) => {
            put_u8(buf, 4);
            put_bool(buf, *v);
        },
        Some(StateValue::S(v)) => {
            put_u8(buf, 5);
            put_str(buf, v.as_str());
        },
        Some(StateValue::Blob(v)) => {
            put_u8(buf, 6);
            put_bytes(buf, v.as_slice());
        },
    }
    assert(buf@ =~= mid + canon_state_value(it.value));
    assert(buf@ =~= old(buf)@ + canon_state_item(*it));
}

fn canonical_state_update(buf: &mut Vec<u8>, s: &StateUpdate)
    ensures
        final(buf)@ == old(buf)@ + canon_state_update(*s),
{
    put_u64(buf, s.local_seq);
    put_u32(buf, s.items.len() as u32);
    let ghost start = buf@;
    let mut i: usize = 0;
    while i < s.items.len()
        invariant
            i <= s.items@.len(),
            start == old(buf)@ + be_u64(s.local_seq) + be_u32(s.items@.len() as u32),
            buf@ == start + canon_items_body(s.items@.subrange(0, i as int)),
        decreases s.items@.len() - i,
    {
        canonical_state_item(buf, &s.items[i]);
        proof {
            let q = s.items@.subrange(0, i + 1);
            assert(q.drop_last() =~= s.items@.subrange(0, i as int));
            assert(buf@ =~= start + canon_items_body(q));
        }
        i = i + 1;
    }
    assert(s.items@.subrange(0, s.items@.len() as int) =~= s.items@);
    assert(buf@ =~= old(buf)@ + canon_state_update(*s));
}

fn canonical_alarm(buf: &mut Vec<u8>, a: &Alarm)
    ensures
        final(buf)@ == old(buf)@ + canon_alarm(*a),
{
    put_i32(buf, a.severity.to_i32());
    put_str(buf, a.code.as_str());
    put_str(buf, a.summary.as_str());
    put_str(buf, a.detail.as_str());
    put_str(buf, a.related_key.as_str());
    put_str(buf, a.recommended_action.as_str());
    assert(buf@ =~= old(buf)@ + canon_alarm(*a));
}

fn canonical_observation(buf: &mut Vec<u8>, o: &Observation)
    ensures
        final(buf)@ == old(buf)@ + canon_observation(*o),
{
    match &o.subject {
        Some(s) => {
            put_u8(buf, 1);
            put_str(buf, s.subject_id.as_str());
        },
        None => put_u8(buf, 0),
    }
    put_i32(buf, o.observation_type.to_i32());
    put_u32(buf, o.confidence_pct);
    put_str(buf, o.summary.as_str());
    put_str(buf, o.detail.as_str());
    assert(buf@ =~= old(buf)@ + canon_observation(*o));
}

fn canonical_telemetry(buf: &mut Vec<u8>, t: &Telemetry)
    ensures
        final(buf)@ == old(buf)@ + canon_telemetry(*t),
{
    match &t.payload {
        None => put_u8(buf, 0),
        Some(TelemetryPayload::Birth(b)) => {
            put_u8(buf, 1);
            canonical_birth(buf, b);
        },
        Some(TelemetryPayload::Heartbeat(h)) => {
            put_u8(buf, 2);
            canonical_heartbeat(buf, h);
        },
        Some(TelemetryPayload::Death(d)) => {
            put_u8(buf, 3);
            canonical_death(buf, d);
        },
        Some(TelemetryPayload::State(s)) => {
            put_u8(buf, 4);
            canonical_state_update(buf, s);
        },
        Some(TelemetryPayload::Alarm(a)) => {
            put_u8(buf, 5);
            canonical_alarm(buf, a);
        },
        Some(TelemetryPayload::Observation(o)) => {
            put_u8(buf, 6);
            canonical_observation(buf, o);
        },
    }
    assert(buf@ =~= old(buf)@ + canon_telemetry(*t));
}

fn canonical_command_request(buf: &mut Vec<u8>, r: &CommandRequest)
    ensures
        final(buf)@ == old(buf)@ + canon_command_request(*r),
{
    put_str(buf, r.request_id.as_str());
    put_str(buf, r.command.as_str());
    put_str(buf, r.target.as_str());
    put_map_sorted(buf, &r.params);
    put_bytes(buf, r.blob.as_slice());
    put_bool(buf, r.requires_confirmation);
    assert(buf@ =~= old(buf)@ + canon_command_request(*r));
}

fn canonical_command(buf: &mut Vec<u8>, c: &Command)
    ensures
        final(buf)@ == old(buf)@ + canon_command(*c),
{
    match &c.payload {
        None => put_u8(buf, 0),
        Some(CommandPayload::Request(r)) => {
            put_u8(buf, 1);
            canonical_command_request(buf, r);
        },
        Some(CommandPayload::Ack(a)) => {
            put_u8(buf, 2);
            canonical_ack(buf, a);
        },
        Some(CommandPayload::Result(r)) => {
            put_u8(buf, 3);
            canonical_op_result(buf, r);
        },
    }
    assert(buf@ =~= old(buf)@ + canon_command(*c));
}

fn canonical_config(buf: &mut Vec<u8>, c: &Config)
    ensures
        final(buf)@ == old(buf)@ + canon_config(*c),
{
    match &c.payload {
        None => put_u8(buf, 0),
        Some(ConfigPayload::Query(q)) => {
            put_u8(buf, 1);
            put_strs(buf, &q.keys);
        },
        Some(ConfigPayload::Snapshot(s)) => {
            put_u8(buf, 2);
            put_u64(buf, s.config_version);
            put_map_sorted(buf, &s.params);
        },
        Some(ConfigPayload::Update(u)) => {
            put_u8(buf, 3);
            put_str(buf, u.update_id.as_str());
            put_bool(buf, u.strict);
            put_map_sorted(buf, &u.params);
        },
        Some(ConfigPayload::Ack(a)) => {
            put_u8(buf, 4);
            canonical_ack(buf, a);
        },
        Some(ConfigPayload::Result(r)) => {
            put_u8(buf, 5);
            canonical_op_result(buf, r);
        },
    }
    assert(buf@ =~= old(buf)@ + canon_config(*c));
}

fn canonical_engineering_request(buf: &mut Vec<u8>, r: &EngineeringRequest)
    ensures
        final(buf)@ == old(buf)@ + canon_engineering_request(*r),
{
    put_str(buf, r.request_id.as_str());
    put_str(buf, r.action.as_str());
    put_str(buf, r.target.as_str());
    put_map_sorted(buf, &r.params);
    put_bytes(buf, r.blob.as_slice());
    put_bool(buf, r.requires_confirmation);
    assert(buf@ =~= old(buf)@ + canon_engineering_request(*r));
}

fn canonical_engineering_result(buf: &mut Vec<u8>, r: &EngineeringResult)
    ensures
        final(buf)@ == old(buf)@ + canon_engineering_result(*r),
{
    put_i32(buf, r.status.to_i32());
    put_str(buf, r.detail.as_str());
    put_map_sorted(buf, &r.outputs);
    put_bytes(buf, r.blob.as_slice());
    assert(buf@ =~= old(buf)@ + canon_engineering_result(*r));
}

fn canonical_engineering(buf: &mut Vec<u8>, e: &Engineering)
    ensures
        final(buf)@ == old(buf)@ + canon_engineering(*e),
{
    match &e.payload {
        None => put_u8(buf, 0),
        Some(EngineeringPayload::Request(r)) => {
            put_u8(buf, 1);
            canonical_engineering_request(buf, r);
        },
        Some(EngineeringPayload::Ack(a)) => {
            put_u8(buf, 2);
            canonical_ack(buf, a);
        },
        Some(EngineeringPayload::Result(r)) => {
            put_u8(buf, 3);
            canonical_engineering_result(buf, r);
        },
    }
    assert(buf@ =~= old(buf)@ + canon_engineering(*e));
}

/// The canonical bytes of a payload.
pub fn canonical_payload_bytes(payload: &Payload) -> (r: Vec<u8>)
    ensures
        r@ == canon_payload(*payload),
{
    let mut buf: Vec<u8> = Vec::new();
    match payload {
        Payload::Telemetry(t) => {
            put_u8(&mut buf, 1);
            canonical_telemetry(&mut buf, t);
        },
        Payload::Command(c) => {
            put_u8(&mut buf, 2);
            canonical_command(&mut buf, c);
        },
        Payload::Config(c) => {
            put_u8(&mut buf, 3);
            canonical_config(&mut buf, c);
        },
        Payload::Engineering(e) => {
            put_u8(&mut buf, 4);
            canonical_engineering(&mut buf, e);
        },
    }
    assert(buf@ =~= canon_payload(*payload));
    buf
}

/// SHA-256 of the payload's canonical bytes.
pub fn payload_hash(payload: &Payload) -> (r: [u8; 32])
    ensures
        r@ == sha256_of(canon_payload(*payload)),
{
    let bytes = canonical_payload_bytes(payload);
    sha256(bytes.as_slice())
}

/// The bytes that a signature covers: everything but the signature itself,
/// with the auth context and the payload each replaced by its digest.
pub fn envelope_signing_bytes(env: &Envelope) -> (r: Vec<u8>)
    requires
        env.payload is Some,
    ensures
        r@ == signing_bytes_of(*env),
{
    let mut buf: Vec<u8> = Vec::new();
    put_bytes(&mut buf, DOMAIN_TAG.as_bytes());
    put_u32(&mut buf, env.proto_ver);
    put_i32(&mut buf, env.msg_class.to_i32());
    put_str(&mut buf, env.sender_id.as_str());
    put_str(&mut buf, env.sender_instance.as_str());
    put_u64(&mut buf, env.counter);
    put_u32(&mut buf, env.ttl_ms);
    put_str(&mut buf, env.transaction_id.as_str());
    put_str(&mut buf, env.idempotency_key.as_str());
    put_i32(&mut buf, env.delivery_profile.to_i32());
    put_str(&mut buf, env.topic.as_str());
    put_str(&mut buf, env.target.as_str());
    put_str(&mut buf, env.scope.as_str());
    put_i32(&mut buf, env.sig_alg.to_i32());
    put_str(&mut buf, env.key_id.as_str());
    let ac_hash = sha256(env.auth_context.as_slice());
    put_raw(&mut buf, &ac_hash);
    match &env.payload {
        Some(p) => {
            let ph = payload_hash(p);
            put_raw(&mut buf, &ph);
        },
        None => {},
    }
    assert(buf@ =~= signing_bytes_of(*env));
    buf
}

proof fn lemma_pairs_body_same(ps: Seq<(String, String)>, qs: Seq<(String, String)>)
    requires
        ps.len() == qs.len(),
        forall|i: int| 0 <= i < ps.len() ==> (#[trigger] ps[i]).0@ == qs[i].0@ && ps[i].1@ == qs[i].1@,
    ensures
        enc_pairs_body(ps) == enc_pairs_body(qs),
    decreases ps.len(),
{
    if ps.len() > 0 {
        let (dp, dq) = (ps.drop_last(), qs.drop_last());
        assert forall|i: int| 0 <= i < dp.len() implies (#[trigger] dp[i]).0@ == dq[i].0@ && dp[i].1@ == dq[i].1@ by {
            assert(dp[i] == ps[i] && dq[i] == qs[i]);
        }
        lemma_pairs_body_same(dp, dq);
        assert(ps.last().0@ == qs.last().0@ && ps.last().1@ == qs.last().1@);
    }
}

/// Canonical determinism: the encoding of a map depends only on its
/// contents, never on the order in which its entries were inserted.
pub proof fn lemma_map_encoding_determined(a: StrMap, b: StrMap)
    requires
        a.wf(),
        b.wf(),
        a@ == b@,
    ensures
        enc_map(a) == enc_map(b),
{
    a.lemma_view();
    b.lemma_view();
    lemma_same_map_same_pairs(a.pairs(), b.pairs());
    lemma_pairs_body_same(a.pairs(), b.pairs());
}

/// Two payloads that are equal but for the insertion order of their maps:
/// every field is equal, except that a map may be a different value holding
/// the same contents.
pub open spec fn same_but_map_order(a: Payload, b: Payload) -> bool {
    match (a, b) {
        (Payload::Command(x), Payload::Command(y)) => match (x.payload, y.payload) {
            (Some(CommandPayload::Request(r)), Some(CommandPayload::Request(q))) => r == (CommandRequest {
                params: r.params,
                ..q
            }) && r.params@ == q.params@,
            _ => x == y,
        },
        (Payload::Config(x), Payload::Config(y)) => match (x.payload, y.payload) {
            (Some(ConfigPayload::Snapshot(r)), Some(ConfigPayload::Snapshot(q))) => r.config_version
                == q.config_version && r.params@ == q.params@,
            (Some(ConfigPayload::Update(r)), Some(ConfigPayload::Update(q))) => r.update_id == q.update_id
                && r.strict == q.strict && r.params@ == q.params@,
            _ => x == y,
        },
        (Payload::Engineering(x), Payload::Engineering(y)) => match (x.payload, y.payload) {
            (Some(EngineeringPayload::Request(r)), Some(EngineeringPayload::Request(q))) => r == (
            EngineeringRequest { params: r.params, ..q }) && r.params@ == q.params@,
            (Some(EngineeringPayload::Result(r)), Some(EngineeringPayload::Result(q))) => r == (
            EngineeringResult { outputs: r.outputs, ..q }) && r.outputs@ == q.outputs@,
            _ => x == y,
        },
        _ => a == b,
    }
}

/// Canonical determinism for whole envelopes: two envelopes equal in every
/// field but the insertion order of their payload's maps have the same
/// signing bytes.
pub proof fn lemma_signing_bytes_determined(e1: Envelope, e2: Envelope)
    requires
        e1.payload is Some,
        e2.payload is Some,
        e1.payload.unwrap().wf(),
        e2.payload.unwrap().wf(),
        e1 == (Envelope { payload: e1.payload, ..e2 }),
        same_but_map_order(e1.payload.unwrap(), e2.payload.unwrap()),
    ensures
        signing_bytes_of(e1) == signing_bytes_of(e2),
{
    let (a, b) = (e1.payload.unwrap(), e2.payload.unwrap());
    match (a, b) {
        (Payload::Command(x), Payload::Command(y)) => match (x.payload, y.payload) {
            (Some(CommandPayload::Request(r)), Some(CommandPayload::Request(q))) => {
                lemma_map_encoding_determined(r.params, q.params);
            },
            _ => {},
        },
        (Payload::Config(x), Payload::Config(y)) => match (x.payload, y.payload) {
            (Some(ConfigPayload::Snapshot(r)), Some(ConfigPayload::Snapshot(q))) => {
                lemma_map_encoding_determined(r.params, q.params);
            },
            (Some(ConfigPayload::Update(r)), Some(ConfigPayload::Update(q))) => {
                lemma_map_encoding_determined(r.params, q.params);
            },
            _ => {},
        },
        (Payload::Engineering(x), Payload::Engineering(y)) => match (x.payload, y.payload) {
            (Some(EngineeringPayload::Request(r)), Some(EngineeringPayload::Request(q))) => {
                lemma_map_encoding_determined(r.params, q.params);
            },
            (Some(EngineeringPayload::Result(r)), Some(EngineeringPayload::Result(q))) => {
                lemma_map_encoding_determined(r.outputs, q.outputs);
            },
            _ => {},
        },
        _ => {},
    }
    assert(canon_payload(a) == canon_payload(b));
}

// ---------- the signing input binds the signed fields ----------

proof fn lemma_be_u32_injective(a: u32, b: u32)
    requires
        be_u32(a) == be_u32(b),
    ensures
        a == b,
{
    assert(be_u32(a)[0] == be_u32(b)[0] && be_u32(a)[1] == be_u32(b)[1] && be_u32(a)[2] == be_u32(b)[2]
        && be_u32(a)[3] == be_u32(b)[3]);
    assert(((a >> 24u32) as u8 == (b >> 24u32) as u8 && (a >> 16u32) as u8 == (b >> 16u32) as u8 && (a
        >> 8u32) as u8 == (b >> 8u32) as u8 && a as u8 == b as u8) ==> a == b) by (bit_vector);
}

proof fn lemma_be_u64_injective(a: u64, b: u64)
    requires
        be_u64(a) == be_u64(b),
    ensures
        a == b,
{
    let (x, y) = (be_u64(a), be_u64(b));
    assert(x[0] == y[0] && x[1] == y[1] && x[2] == y[2] && x[3] == y[3] && x[4] == y[4] && x[5] == y[5]
        && x[6] == y[6] && x[7] == y[7]);
    assert(((a >> 56u64) as u8 == (b >> 56u64) as u8 && (a >> 48u64) as u8 == (b >> 48u64) as u8 && (a
        >> 40u64) as u8 == (b >> 40u64) as u8 && (a >> 32u64) as u8 == (b >> 32u64) as u8 && (a >> 24u64) as u8
        == (b >> 24u64) as u8 && (a >> 16u64) as u8 == (b >> 16u64) as u8 && (a >> 8u64) as u8 == (b
        >> 8u64) as u8 && a as u8 == b as u8) ==> a == b) by (bit_vector);
}

proof fn lemma_be_i32_injective(a: i32, b: i32)
    requires
        be_i32(a) == be_i32(b),
    ensures
        a == b,
{
    lemma_be_u32_injective(a as u32, b as u32);
    assert((a as u32 == b as u32) ==> a == b) by (bit_vector);
}

/// Splits `x + r == y + q` where `x` and `y` have the same length.
proof fn lemma_split(x: Seq<u8>, r: Seq<u8>, y: Seq<u8>, q: Seq<u8>)
    requires
        x + r == y + q,
        x.len() == y.len(),
    ensures
        x == y,
        r == q,
{
    let n = x.len() as int;
    assert(x =~= (x + r).subrange(0, n));
    assert(y =~= (y + q).subrange(0, n));
    assert(r =~= (x + r).subrange(n, (x + r).len() as int));
    assert(q =~= (y + q).subrange(n, (y + q).len() as int));
}

/// A length-prefixed byte string can be read back off the front of a sequence.
proof fn lemma_split_bytes(a: Seq<u8>, r: Seq<u8>, b: Seq<u8>, q: Seq<u8>)
    requires
        enc_bytes(a) + r == enc_bytes(b) + q,
        a.len() <= u32::MAX,
        b.len() <= u32::MAX,
    ensures
        a == b,
        r == q,
{
    assert(enc_bytes(a) + r =~= be_u32(a.len() as u32) + (a + r));
    assert(enc_bytes(b) + q =~= be_u32(b.len() as u32) + (b + q));
    lemma_split(be_u32(a.len() as u32), a + r, be_u32(b.len() as u32), b + q);
    lemma_be_u32_injective(a.len() as u32, b.len() as u32);
    lemma_split(a, r, b, q);
}

/// Each string field of the signing input fits its length prefix.
pub open spec fn signable_lengths(env: Envelope) -> bool {
    &&& str_bytes(env.sender_id.text()).len() <= u32::MAX
    &&& str_bytes(env.sender_instance.text()).len() <= u32::MAX
    &&& str_bytes(env.transaction_id.text()).len() <= u32::MAX
    &&& str_bytes(env.idempotency_key.text()).len() <= u32::MAX
    &&& str_bytes(env.topic).len() <= u32::MAX
    &&& str_bytes(env.target).len() <= u32::MAX
    &&& str_bytes(env.scope).len() <= u32::MAX
    &&& str_bytes(env.key_id).len() <= u32::MAX
}

/// The signing input after the domain tag, written field by field, each
/// field followed by the rest.
spec fn signing_tail(e: Envelope) -> Seq<u8> {
    be_u32(e.proto_ver) + (be_i32(e.msg_class.code()) + (enc_str(e.sender_id.text()) + (enc_str(
    e.sender_instance.text()) + (be_u64(e.counter) + (be_u32(e.ttl_ms) + (enc_str(e.transaction_id.text())
        + (enc_str(e.idempotency_key.text()) + (be_i32(e.delivery_profile.code()) + (enc_str(e.topic)
        + (enc_str(e.target) + (enc_str(e.scope) + (be_i32(e.sig_alg.code()) + (enc_str(e.key_id) + (
    sha256_of(e.auth_context@) + sha256_of(canon_payload(e.payload.unwrap()))))))))))))))))
}

proof fn lemma_signing_tail(e: Envelope)
    ensures
        signing_bytes_of(e) == enc_bytes(encode_utf8(DOMAIN_TAG@)) + signing_tail(e),
{
    let l0 = enc_bytes(encode_utf8(DOMAIN_TAG@));
    let x1 = be_u32(e.proto_ver);
    let x2 = be_i32(e.msg_class.code());
    let x3 = enc_str(e.sender_id.text());
    let x4 = enc_str(e.sender_instance.text());
    let x5 = be_u64(e.counter);
    let x6 = be_u32(e.ttl_ms);
    let x7 = enc_str(e.transaction_id.text());
    let x8 = enc_str(e.idempotency_key.text());
    let x9 = be_i32(e.delivery_profile.code());
    let x10 = enc_str(e.topic);
    let x11 = enc_str(e.target);
    let x12 = enc_str(e.scope);
    let x13 = be_i32(e.sig_alg.code());
    let x14 = enc_str(e.key_id);
    let x15 = sha256_of(e.auth_context@);
    let x16 = sha256_of(canon_payload(e.payload.unwrap()));
    let l1 = l0 + x1;
    let l2 = l1 + x2;
    let l3 = l2 + x3;
    let l4 = l3 + x4;
    let l5 = l4 + x5;
    let l6 = l5 + x6;
    let l7 = l6 + x7;
    let l8 = l7 + x8;
    let l9 = l8 + x9;
    let l10 = l9 + x10;
    let l11 = l10 + x11;
    let l12 = l11 + x12;
    let l13 = l12 + x13;
    let l14 = l13 + x14;
    let l15 = l14 + x15;
    let l16 = l15 + x16;
    assert(signing_bytes_of(e) == l16);
    let t16 = x16;
    let t15 = x15 + t16;
    let t14 = x14 + t15;
    let t13 = x13 + t14;
    let t12 = x12 + t13;
    let t11 = x11 + t12;
    let t10 = x10 + t11;
    let t9 = x9 + t10;
    let t8 = x8 + t9;
    let t7 = x7 + t8;
    let t6 = x6 + t7;
    let t5 = x5 + t6;
    let t4 = x4 + t5;
    let t3 = x3 + t4;
    let t2 = x2 + t3;
    let t1 = x1 + t2;
    lemma_concat_associative(l14, x15, t16);
    lemma_concat_associative(l13, x14, t15);
    lemma_concat_associative(l12, x13, t14);
    lemma_concat_associative(l11, x12, t13);
    lemma_concat_associative(l10, x11, t12);
    lemma_concat_associative(l9, x10, t11);
    lemma_concat_associative(l8, x9, t10);
    lemma_concat_associative(l7, x8, t9);
    lemma_concat_associative(l6, x7, t8);
    lemma_concat_associative(l5, x6, t7);
    lemma_concat_associative(l4, x5, t6);
    lemma_concat_associative(l3, x4, t5);
    lemma_concat_associative(l2, x3, t4);
    lemma_concat_associative(l1, x2, t3);
    lemma_concat_associative(l0, x1, t2);
    assert(signing_tail(e) == t1);
}

/// Signature binding, for the signing input: two envelopes with the same
/// signing bytes agree on every signed header field, routing hint and key
/// id, and on the digests of their auth contexts and payloads. A signature
/// over one envelope therefore covers a change to any of these fields.
pub proof fn lemma_signing_bytes_bind(e1: Envelope, e2: Envelope)
    requires
        e1.payload is Some,
        e2.payload is Some,
        e1.wf(),
        e2.wf(),
        signable_lengths(e1),
        signable_lengths(e2),
        signing_bytes_of(e1) == signing_bytes_of(e2),
    ensures
        e1.proto_ver == e2.proto_ver,
        e1.msg_class == e2.msg_class,
        e1.sender_id.text()@ == e2.sender_id.text()@,
        e1.sender_instance.text()@ == e2.sender_instance.text()@,
        e1.counter == e2.counter,
        e1.ttl_ms == e2.ttl_ms,
        e1.transaction_id.text()@ == e2.transaction_id.text()@,
        e1.idempotency_key.text()@ == e2.idempotency_key.text()@,
        e1.delivery_profile == e2.delivery_profile,
        e1.topic@ == e2.topic@,
        e1.target@ == e2.target@,
        e1.scope@ == e2.scope@,
        e1.sig_alg == e2.sig_alg,
        e1.key_id@ == e2.key_id@,
        sha256_of(e1.auth_context@) + sha256_of(canon_payload(e1.payload.unwrap())) == sha256_of(
            e2.auth_context@,
        ) + sha256_of(canon_payload(e2.payload.unwrap())),
{
    // The signing input as one field followed by the rest, from the back.
    let a15 = sha256_of(e1.auth_context@) + sha256_of(canon_payload(e1.payload.unwrap()));
    let b15 = sha256_of(e2.auth_context@) + sha256_of(canon_payload(e2.payload.unwrap()));
    let (a14, b14) = (enc_str(e1.key_id) + a15, enc_str(e2.key_id) + b15);
    let (a13, b13) = (be_i32(e1.sig_alg.code()) + a14, be_i32(e2.sig_alg.code()) + b14);
    let (a12, b12) = (enc_str(e1.scope) + a13, enc_str(e2.scope) + b13);
    let (a11, b11) = (enc_str(e1.target) + a12, enc_str(e2.target) + b12);
    let (a10, b10) = (enc_str(e1.topic) + a11, enc_str(e2.topic) + b11);
    let (a9, b9) = (be_i32(e1.delivery_profile.code()) + a10, be_i32(e2.delivery_profile.code()) + b10);
    let (a8, b8) = (enc_str(e1.idempotency_key.text()) + a9, enc_str(e2.idempotency_key.text()) + b9);
    let (a7, b7) = (enc_str(e1.transaction_id.text()) + a8, enc_str(e2.transaction_id.text()) + b8);
    let (a6, b6) = (be_u32(e1.ttl_ms) + a7, be_u32(e2.ttl_ms) + b7);
    let (a5, b5) = (be_u64(e1.counter) + a6, be_u64(e2.counter) + b6);
    let (a4, b4) = (enc_str(e1.sender_instance.text()) + a5, enc_str(e2.sender_instance.text()) + b5);
    let (a3, b3) = (enc_str(e1.sender_id.text()) + a4, enc_str(e2.sender_id.text()) + b4);
    let (a2, b2) = (be_i32(e1.msg_class.code()) + a3, be_i32(e2.msg_class.code()) + b3);
    let (a1, b1) = (be_u32(e1.proto_ver) + a2, be_u32(e2.proto_ver) + b2);
    let tag = enc_bytes(encode_utf8(DOMAIN_TAG@));
    lemma_signing_tail(e1);
    lemma_signing_tail(e2);
    assert(signing_tail(e1) == a1);
    assert(signing_tail(e2) == b1);

    lemma_split(tag, a1, tag, b1);
    lemma_split(be_u32(e1.proto_ver), a2, be_u32(e2.proto_ver), b2);
    lemma_be_u32_injective(e1.proto_ver, e2.proto_ver);
    lemma_split(be_i32(e1.msg_class.code()), a3, be_i32(e2.msg_class.code()), b3);
    lemma_be_i32_injective(e1.msg_class.code(), e2.msg_class.code());
    e1.msg_class.lemma_code_round_trip();
    e2.msg_class.lemma_code_round_trip();
    lemma_split_bytes(str_bytes(e1.sender_id.text()), a4, str_bytes(e2.sender_id.text()), b4);
    lemma_str_bytes_injective(e1.sender_id.text(), e2.sender_id.text());
    lemma_split_bytes(str_bytes(e1.sender_instance.text()), a5, str_bytes(e2.sender_instance.text()), b5);
    lemma_str_bytes_injective(e1.sender_instance.text(), e2.sender_instance.text());
    lemma_split(be_u64(e1.counter), a6, be_u64(e2.counter), b6);
    lemma_be_u64_injective(e1.counter, e2.counter);
    lemma_split(be_u32(e1.ttl_ms), a7, be_u32(e2.ttl_ms), b7);
    lemma_be_u32_injective(e1.ttl_ms, e2.ttl_ms);
    lemma_split_bytes(str_bytes(e1.transaction_id.text()), a8, str_bytes(e2.transaction_id.text()), b8);
    lemma_str_bytes_injective(e1.transaction_id.text(), e2.transaction_id.text());
    lemma_split_bytes(str_bytes(e1.idempotency_key.text()), a9, str_bytes(e2.idempotency_key.text()), b9);
    lemma_str_bytes_injective(e1.idempotency_key.text(), e2.idempotency_key.text());
    lemma_split(be_i32(e1.delivery_profile.code()), a10, be_i32(e2.delivery_profile.code()), b10);
    lemma_be_i32_injective(e1.delivery_profile.code(), e2.delivery_profile.code());
    e1.delivery_profile.lemma_code_round_trip();
    e2.delivery_profile.lemma_code_round_trip();
    lemma_split_bytes(str_bytes(e1.topic), a11, str_bytes(e2.topic), b11);
    lemma_str_bytes_injective(e1.topic, e2.topic);
    lemma_split_bytes(str_bytes(e1.target), a12, str_bytes(e2.target), b12);
    lemma_str_bytes_injective(e1.target, e2.target);
    lemma_split_bytes(str_bytes(e1.scope), a13, str_bytes(e2.scope), b13);
    lemma_str_bytes_injective(e1.scope, e2.scope);
    lemma_split(be_i32(e1.sig_alg.code()), a14, be_i32(e2.sig_alg.code()), b14);
    lemma_be_i32_injective(e1.sig_alg.code(), e2.sig_alg.code());
    e1.sig_alg.lemma_code_round_trip();
    e2.sig_alg.lemma_code_round_trip();
    lemma_split_bytes(str_bytes(e1.key_id), a15, str_bytes(e2.key_id), b15);
    lemma_str_bytes_injective(e1.key_id, e2.key_id);
}

} // verus!
