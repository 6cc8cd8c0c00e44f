//! The operation field of the packets that the throughput measurement
//! exchanges.

use vstd::prelude::*;

verus! {

/// The operation that a measurement packet stands for, as the byte that
/// travels in the packet.
#[derive(PartialEq, Eq, Structural, PartialOrd, Ord, Clone, Copy, Debug, Hash)]
pub struct PerfOpField(pub u8);

impl PerfOpField {
    /// The operation that the byte `field_val` stands for.
    pub fn new(field_val: u8) -> (field: PerfOpField)
        ensures
            field.0 == field_val,
    {
        PerfOpField(field_val)
    }

    /// The byte that travels in the packet.
    pub fn to_primitive_values(&self) -> (values: (u8,))
        ensures
            values.0 == self.0,
    {
        (self.0,)
    }

    /// The client asks the server to start a measurement.
    pub fn req_start() -> (field: PerfOpField)
        ensures
            field.0 == 0x00,
    {
        PerfOpField(0x00)
    }

    /// The client asks the server to end the measurement.
    pub fn req_end() -> (field: PerfOpField)
        ensures
            field.0 == 0x01,
    {
        PerfOpField(0x01)
    }

    /// The server has started the measurement.
    pub fn res_start() -> (field: PerfOpField)
        ensures
            field.0 == 0x20,
    {
        PerfOpField(0x20)
    }

    /// The server has ended the measurement.
    pub fn res_end() -> (field: PerfOpField)
        ensures
            field.0 == 0x21,
    {
        PerfOpField(0x21)
    }

    /// The packet carries measurement data.
    pub fn data() -> (field: PerfOpField)
        ensures
            field.0 == 0x30,
    {
        PerfOpField(0x30)
    }

    /// The client asks for the result.
    pub fn req_result() -> (field: PerfOpField)
        ensures
            field.0 == 0x40,
    {
        PerfOpField(0x40)
    }

    /// The server sends the result.
    pub fn res_result() -> (field: PerfOpField)
        ensures
            field.0 == 0x41,
    {
        PerfOpField(0x41)
    }
}

} // verus!
