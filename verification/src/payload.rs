use vstd::prelude::*;
use crate::sensor::{SensorValue, SensorValueType};

verus! {

/// One call of the message encoder (JSON for the CoAP server, CBOR for the
/// collector node). A message is the sequence of calls that composes it.
#[derive(Debug, PartialEq, Eq)]
pub enum EncodeOp {
    /// Open an object (a JSON object, a CBOR map).
    BeginObject,
    /// Close the innermost open object.
    EndObject,
    /// Open an array, stored under `name` in the enclosing object.
    BeginArray { name: Vec<u8> },
    /// Close the innermost open array.
    EndArray,
    /// Set `key` to a text value in the innermost open object.
    Text { key: Vec<u8>, text: Vec<u8> },
    /// Set `key` to an unsigned integer in the innermost open object.
    Uint { key: Vec<u8>, value: u32 },
    /// Set `key` to a floating-point number, given by its IEEE 754
    /// single-precision bit pattern, in the innermost open object.
    Float { key: Vec<u8>, bits: u32 },
}

/// The mathematical form of an encoder call.
pub enum Op {
    BeginObject,
    EndObject,
    BeginArray { name: Seq<u8> },
    EndArray,
    Text { key: Seq<u8>, text: Seq<u8> },
    Uint { key: Seq<u8>, value: u32 },
    Float { key: Seq<u8>, bits: u32 },
}

impl View for EncodeOp {
    type V = Op;

    open spec fn view(&self) -> Op {
        match self {
            EncodeOp::BeginObject => Op::BeginObject,
            EncodeOp::EndObject => Op::EndObject,
            EncodeOp::BeginArray { name } => Op::BeginArray { name: name@ },
            EncodeOp::EndArray => Op::EndArray,
            EncodeOp::Text { key, text } => Op::Text { key: key@, text: text@ },
            EncodeOp::Uint { key, value } => Op::Uint { key: key@, value: *value },
            EncodeOp::Float { key, bits } => Op::Float { key: key@, bits: *bits },
        }
    }
}

/// The calls that a vector of encoder calls stands for.
pub open spec fn ops_view(v: Seq<EncodeOp>) -> Seq<Op> {
    v.map_values(|o: EncodeOp| o@)
}

/// The name of the array of readings in a server message: `values`.
pub open spec fn name_values() -> Seq<u8> {
    seq![0x76u8, 0x61u8, 0x6cu8, 0x75u8, 0x65u8, 0x73u8]
}

/// The field that names a reading in a server message: `key`.
pub open spec fn name_key() -> Seq<u8> {
    seq![0x6bu8, 0x65u8, 0x79u8]
}

/// The field that holds a reading in a server message: `value`.
pub open spec fn name_value() -> Seq<u8> {
    seq![0x76u8, 0x61u8, 0x6cu8, 0x75u8, 0x65u8]
}

/// The key of the device id reading: `device`.
pub open spec fn name_device() -> Seq<u8> {
    seq![0x64u8, 0x65u8, 0x76u8, 0x69u8, 0x63u8, 0x65u8]
}

/// The key of the node id reading: `node`.
pub open spec fn name_node() -> Seq<u8> {
    seq![0x6eu8, 0x6fu8, 0x64u8, 0x65u8]
}

/// The call that sets `key` to a sensor value (which is not `Empty`).
pub open spec fn value_op(key: Seq<u8>, val: SensorValueType) -> Op {
    match val {
        SensorValueType::Float(bits) => Op::Float { key, bits },
        SensorValueType::Uint(value) => Op::Uint { key, value },
        SensorValueType::Empty => Op::Uint { key, value: 0 },
    }
}

/// One item of the server's array of readings with a text value:
/// `{"key": name, "value": text}`.
pub open spec fn text_item(name: Seq<u8>, text: Seq<u8>) -> Seq<Op> {
    seq![
        Op::BeginObject,
        Op::Text { key: name_key(), text: name },
        Op::Text { key: name_value(), text },
        Op::EndObject,
    ]
}

/// One item of the server's array of readings with the sensor value:
/// `{"key": key, "value": val}`.
pub open spec fn sensor_item(key: Seq<u8>, val: SensorValueType) -> Seq<Op> {
    seq![
        Op::BeginObject,
        Op::Text { key: name_key(), text: key },
        value_op(name_value(), val),
        Op::EndObject,
    ]
}

/// The message to the CoAP server:
/// `{"values": [{"key": "device", "value": device_id},
///              {"key": "node", "value": node_id},
///              {"key": key, "value": val}]}`.
pub open spec fn server_message(
    device_id: Seq<u8>,
    node_id: Seq<u8>,
    key: Seq<u8>,
    val: SensorValueType,
) -> Seq<Op> {
    seq![Op::BeginObject, Op::BeginArray { name: name_values() }]
        + text_item(name_device(), device_id)
        + text_item(name_node(), node_id)
        + sensor_item(key, val)
        + seq![Op::EndArray, Op::EndObject]
}

/// The message to the collector node: `{key: value}`.
pub open spec fn collector_message(key: Seq<u8>, value: u32) -> Seq<Op> {
    seq![Op::BeginObject, Op::Uint { key, value }, Op::EndObject]
}

/// The kinds of container that a message nests.
pub enum Container {
    Object,
    Array,
}

/// The open containers after one call, from those before it; `None` where
/// the call does not fit: an object opens at the top or inside an array, an
/// array or a field only inside an object, and a close must match the
/// innermost open container.
pub open spec fn nest_step(stack: Seq<Container>, op: Op) -> Option<Seq<Container>> {
    let inside_object = stack.len() > 0 && stack.last() == Container::Object;
    let inside_array = stack.len() > 0 && stack.last() == Container::Array;
    match op {
        Op::BeginObject => if stack.len() == 0 || inside_array {
            Some(stack.push(Container::Object))
        } else {
            None
        },
        Op::BeginArray { .. } => if inside_object {
            Some(stack.push(Container::Array))
        } else {
            None
        },
        Op::EndObject => if inside_object {
            Some(stack.drop_last())
        } else {
            None
        },
        Op::EndArray => if inside_array {
            Some(stack.drop_last())
        } else {
            None
        },
        _ => if inside_object {
            Some(stack)
        } else {
            None
        },
    }
}

/// The open containers after a sequence of calls.
pub open spec fn nest(stack: Seq<Container>, ops: Seq<Op>) -> Option<Seq<Container>>
    decreases ops.len(),
{
    if ops.len() == 0 {
        Some(stack)
    } else {
        match nest_step(stack, ops[0]) {
            Some(next) => nest(next, ops.drop_first()),
            None => None,
        }
    }
}

/// A sequence of calls composes one well-formed message: every call fits,
/// and every container that it opens it also closes.
pub open spec fn well_formed_message(ops: Seq<Op>) -> bool {
    nest(Seq::empty(), ops) == Some(Seq::<Container>::empty())
}

proof fn lemma_nest_append(stack: Seq<Container>, a: Seq<Op>, b: Seq<Op>)
    ensures
        nest(stack, a + b) == (match nest(stack, a) {
            Some(mid) => nest(mid, b),
            None => None,
        }),
    decreases a.len(),
{
    if a.len() == 0 {
        assert(a + b =~= b);
    } else {
        assert((a + b)[0] == a[0]);
        assert((a + b).drop_first() =~= a.drop_first() + b);
        match nest_step(stack, a[0]) {
            Some(next) => lemma_nest_append(next, a.drop_first(), b),
            None => {},
        }
    }
}

proof fn lemma_item_keeps_array(stack: Seq<Container>, entry1: Op, entry2: Op)
    requires
        stack.len() > 0,
        stack.last() == Container::Array,
        !(entry1 is BeginObject || entry1 is EndObject || entry1 is BeginArray || entry1 is EndArray),
        !(entry2 is BeginObject || entry2 is EndObject || entry2 is BeginArray || entry2 is EndArray),
    ensures
        nest(stack, seq![Op::BeginObject, entry1, entry2, Op::EndObject]) == Some(stack),
{
    let ops = seq![Op::BeginObject, entry1, entry2, Op::EndObject];
    let s1 = stack.push(Container::Object);
    assert(s1.drop_last() =~= stack);
    assert(ops.drop_first() =~= seq![entry1, entry2, Op::EndObject]);
    assert(ops.drop_first().drop_first() =~= seq![entry2, Op::EndObject]);
    assert(ops.drop_first().drop_first().drop_first() =~= seq![Op::EndObject]);
    assert(ops.drop_first().drop_first().drop_first().drop_first() =~= Seq::<Op>::empty());
    reveal_with_fuel(nest, 5);
}

/// Every message to the CoAP server is well formed: the array of readings
/// sits in the root object, each reading is an object in it, and every
/// container is closed.
pub proof fn law_server_message_well_formed(
    device_id: Seq<u8>,
    node_id: Seq<u8>,
    key: Seq<u8>,
    val: SensorValueType,
)
    requires
        val != SensorValueType::Empty,
    ensures
        well_formed_message(server_message(device_id, node_id, key, val)),
{
    let empty = Seq::<Container>::empty();
    let head = seq![Op::BeginObject, Op::BeginArray { name: name_values() }];
    let tail = seq![Op::EndArray, Op::EndObject];
    let open = seq![Container::Object, Container::Array];
    let i1 = text_item(name_device(), device_id);
    let i2 = text_item(name_node(), node_id);
    let i3 = sensor_item(key, val);
    assert(nest(empty, head) == Some(open)) by {
        assert(head.drop_first() =~= seq![Op::BeginArray { name: name_values() }]);
        assert(head.drop_first().drop_first() =~= Seq::<Op>::empty());
        assert(empty.push(Container::Object).push(Container::Array) =~= open);
        reveal_with_fuel(nest, 3);
    }
    lemma_item_keeps_array(open, i1[1], i1[2]);
    assert(i1 =~= seq![Op::BeginObject, i1[1], i1[2], Op::EndObject]);
    lemma_item_keeps_array(open, i2[1], i2[2]);
    assert(i2 =~= seq![Op::BeginObject, i2[1], i2[2], Op::EndObject]);
    lemma_item_keeps_array(open, i3[1], i3[2]);
    assert(i3 =~= seq![Op::BeginObject, i3[1], i3[2], Op::EndObject]);
    assert(nest(open, tail) == Some(empty)) by {
        assert(open.drop_last() =~= seq![Container::Object]);
        assert(seq![Container::Object].drop_last() =~= empty);
        assert(tail.drop_first() =~= seq![Op::EndObject]);
        assert(tail.drop_first().drop_first() =~= Seq::<Op>::empty());
        reveal_with_fuel(nest, 3);
    }
    lemma_nest_append(empty, head, i1);
    lemma_nest_append(empty, head + i1, i2);
    lemma_nest_append(empty, head + i1 + i2, i3);
    lemma_nest_append(empty, head + i1 + i2 + i3, tail);
}

/// Every message to the collector node is well formed: one field in the
/// root object, which is closed.
pub proof fn law_collector_message_well_formed(key: Seq<u8>, value: u32)
    ensures
        well_formed_message(collector_message(key, value)),
{
    let ops = collector_message(key, value);
    let empty = Seq::<Container>::empty();
    assert(empty.push(Container::Object).drop_last() =~= empty);
    assert(ops.drop_first() =~= seq![Op::Uint { key, value }, Op::EndObject]);
    assert(ops.drop_first().drop_first() =~= seq![Op::EndObject]);
    assert(ops.drop_first().drop_first().drop_first() =~= Seq::<Op>::empty());
    reveal_with_fuel(nest, 4);
}

/// The layout of every message to the CoAP server, field by field: the root
/// object holds the array `values`, whose first item is
/// `{"key": "device", "value": device_id}`, whose second item is
/// `{"key": "node", "value": node_id}` and whose third item is
/// `{"key": key, "value": the reading}`; the ids, the key and the reading
/// are carried unchanged, whatever the kind of reading.
pub proof fn law_server_message_layout(
    device_id: Seq<u8>,
    node_id: Seq<u8>,
    key: Seq<u8>,
    val: SensorValueType,
)
    requires
        val != SensorValueType::Empty,
    ensures
        ({
            let m = server_message(device_id, node_id, key, val);
            let key_text = seq![0x6bu8, 0x65u8, 0x79u8];
            let value_text = seq![0x76u8, 0x61u8, 0x6cu8, 0x75u8, 0x65u8];
            &&& m.len() == 16
            &&& m[0] == Op::BeginObject
            &&& m[1] == Op::BeginArray { name: seq![0x76u8, 0x61u8, 0x6cu8, 0x75u8, 0x65u8, 0x73u8] }
            &&& m[2] == Op::BeginObject
            &&& m[3] == Op::Text { key: key_text, text: seq![0x64u8, 0x65u8, 0x76u8, 0x69u8, 0x63u8, 0x65u8] }
            &&& m[4] == Op::Text { key: value_text, text: device_id }
            &&& m[5] == Op::EndObject
            &&& m[6] == Op::BeginObject
            &&& m[7] == Op::Text { key: key_text, text: seq![0x6eu8, 0x6fu8, 0x64u8, 0x65u8] }
            &&& m[8] == Op::Text { key: value_text, text: node_id }
            &&& m[9] == Op::EndObject
            &&& m[10] == Op::BeginObject
            &&& m[11] == Op::Text { key: key_text, text: key }
            &&& (val matches SensorValueType::Uint(x) ==> m[12] == Op::Uint { key: value_text, value: x })
            &&& (val matches SensorValueType::Float(b) ==> m[12] == Op::Float { key: value_text, bits: b })
            &&& m[13] == Op::EndObject
            &&& m[14] == Op::EndArray
            &&& m[15] == Op::EndObject
        }),
{
    let m = server_message(device_id, node_id, key, val);
    assert(name_values() =~= seq![0x76u8, 0x61u8, 0x6cu8, 0x75u8, 0x65u8, 0x73u8]);
    assert(name_key() =~= seq![0x6bu8, 0x65u8, 0x79u8]);
    assert(name_value() =~= seq![0x76u8, 0x61u8, 0x6cu8, 0x75u8, 0x65u8]);
    assert(name_device() =~= seq![0x64u8, 0x65u8, 0x76u8, 0x69u8, 0x63u8, 0x65u8]);
    assert(name_node() =~= seq![0x6eu8, 0x6fu8, 0x64u8, 0x65u8]);
}

/// The message to the collector node is one root object holding the
/// reading's key and its integer value, unchanged.
pub proof fn law_collector_message_layout(key: Seq<u8>, value: u32)
    ensures
        ({
            let m = collector_message(key, value);
            &&& m.len() == 3
            &&& m[0] == Op::BeginObject
            &&& m[1] == Op::Uint { key, value }
            &&& m[2] == Op::EndObject
        }),
{
}

/// A fresh copy of some bytes.
fn bytes_of(b: &[u8]) -> (r: Vec<u8>)
    ensures
        r@ == b@,
{
    vstd::slice::slice_to_vec(b)
}

fn values_name() -> (r: Vec<u8>)
    ensures
        r@ == name_values(),
{
    let r = vec![0x76u8, 0x61u8, 0x6cu8, 0x75u8, 0x65u8, 0x73u8];
    assert(r@ =~= name_values());
    r
}

fn key_name() -> (r: Vec<u8>)
    ensures
        r@ == name_key(),
{
    let r = vec![0x6bu8, 0x65u8, 0x79u8];
    assert(r@ =~= name_key());
    r
}

fn value_name() -> (r: Vec<u8>)
    ensures
        r@ == name_value(),
{
    let r = vec![0x76u8, 0x61u8, 0x6cu8, 0x75u8, 0x65u8];
    assert(r@ =~= name_value());
    r
}

fn device_name() -> (r: Vec<u8>)
    ensures
        r@ == name_device(),
{
    let r = vec![0x64u8, 0x65u8, 0x76u8, 0x69u8, 0x63u8, 0x65u8];
    assert(r@ =~= name_device());
    r
}

fn node_name() -> (r: Vec<u8>)
    ensures
        r@ == name_node(),
{
    let r = vec![0x6eu8, 0x6fu8, 0x64u8, 0x65u8];
    assert(r@ =~= name_node());
    r
}

/// Appends the calls of an item with a text value.
fn push_text_item(ops: &mut Vec<EncodeOp>, name: Vec<u8>, text: &[u8])
    ensures
        ops_view(final(ops)@) == ops_view(old(ops)@) + text_item(name@, text@),
{
    let ghost before = ops@;
    ops.push(EncodeOp::BeginObject);
    ops.push(EncodeOp::Text { key: key_name(), text: name });
    ops.push(EncodeOp::Text { key: value_name(), text: bytes_of(text) });
    ops.push(EncodeOp::EndObject);
    assert(ops_view(ops@) =~= ops_view(before) + text_item(name@, text@));
}

/// The encoder call that sets `key` to a sensor value.
fn value_call(key: Vec<u8>, val: SensorValueType) -> (r: EncodeOp)
    requires
        val != SensorValueType::Empty,
    ensures
        r@ == value_op(key@, val),
{
    match val {
        SensorValueType::Float(bits) => EncodeOp::Float { key, bits },
        SensorValueType::Uint(value) => EncodeOp::Uint { key, value },
        SensorValueType::Empty => EncodeOp::Uint { key, value: 0 },
    }
}

/// The calls that compose the message to the CoAP server. The server carries
/// integer and floating-point readings; a reading without a value is refused
/// before this point.
pub fn server_payload(device_id: &[u8], node_id: &[u8], sensor: &SensorValue) -> (ops: Vec<
    EncodeOp,
>)
    requires
        sensor.val != SensorValueType::Empty,
    ensures
        ops_view(ops@) == server_message(device_id@, node_id@, sensor.key@, sensor.val),
        well_formed_message(ops_view(ops@)),
{
    proof {
        law_server_message_well_formed(device_id@, node_id@, sensor.key@, sensor.val);
    }
    let mut ops: Vec<EncodeOp> = Vec::new();
    ops.push(EncodeOp::BeginObject);
    ops.push(EncodeOp::BeginArray { name: values_name() });
    assert(ops_view(ops@) =~= seq![Op::BeginObject, Op::BeginArray { name: name_values() }]);
    push_text_item(&mut ops, device_name(), device_id);
    push_text_item(&mut ops, node_name(), node_id);
    let ghost mid = ops@;
    ops.push(EncodeOp::BeginObject);
    ops.push(EncodeOp::Text { key: key_name(), text: bytes_of(sensor.key.as_slice()) });
    ops.push(value_call(value_name(), sensor.val));
    ops.push(EncodeOp::EndObject);
    assert(ops_view(ops@) =~= ops_view(mid) + sensor_item(sensor.key@, sensor.val));
    let ghost mid2 = ops@;
    ops.push(EncodeOp::EndArray);
    ops.push(EncodeOp::EndObject);
    assert(ops_view(ops@) =~= ops_view(mid2) + seq![Op::EndArray, Op::EndObject]);
    ops
}

/// The calls that compose the message to the collector node, which carries
/// integer readings only.
pub fn collector_payload(key: &[u8], value: u32) -> (ops: Vec<EncodeOp>)
    ensures
        ops_view(ops@) == collector_message(key@, value),
        well_formed_message(ops_view(ops@)),
{
    proof {
        law_collector_message_well_formed(key@, value);
    }
    let mut ops: Vec<EncodeOp> = Vec::new();
    ops.push(EncodeOp::BeginObject);
    ops.push(EncodeOp::Uint { key: bytes_of(key), value });
    ops.push(EncodeOp::EndObject);
    assert(ops_view(ops@) =~= collector_message(key@, value));
    ops
}

} // verus!
