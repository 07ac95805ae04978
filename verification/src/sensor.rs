use vstd::prelude::*;

verus! {

/// The value of a sensor reading.
#[derive(Clone, Copy, Debug, PartialEq, Eq, Structural)]
pub enum SensorValueType {
    /// No value.
    Empty,
    /// An integer value, such as the raw temperature (0 to 4095).
    Uint(u32),
    /// A floating-point value, such as the computed temperature, held as the
    /// bit pattern of its IEEE 754 single-precision encoding.
    Float(u32),
}

/// A sensor reading: the sensor key (the field name in the message, such as
/// `t` for the raw temperature or `tmp` for the computed one) and its value.
#[derive(Debug, PartialEq, Eq)]
pub struct SensorValue {
    pub key: Vec<u8>,
    pub val: SensorValueType,
}

impl SensorValue {
    /// A reading with the given key and value.
    pub fn new(key: Vec<u8>, val: SensorValueType) -> (r: SensorValue)
        ensures
            r.key@ == key@,
            r.val == val,
    {
        SensorValue { key, val }
    }
}

} // verus!
