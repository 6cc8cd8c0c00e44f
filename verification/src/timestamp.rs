//! Finding the receive timestamp among the control messages of a received
//! packet.
//!
//! The kernel hands control messages over in one buffer, one after another,
//! each starting on a multiple of eight bytes. A message begins with a header
//! of sixteen bytes: its length in eight bytes, header included, then its
//! level and its type in four bytes each. The payload follows. All numbers
//! are stored least significant byte first, as Linux does on the 64-bit
//! machines that it mostly runs on.

use vstd::prelude::*;
use crate::time::TimeSpec;

verus! {

/// The size of a control-message header.
pub const HEADER_SIZE: usize = 16;

/// The size of the payload of a timestamp message: seconds and nanoseconds,
/// eight bytes each.
pub const PAYLOAD_SIZE: usize = 16;

/// The level of the messages of the socket layer.
pub const SOL_SOCKET: i32 = 1;

/// The type of the message that carries a receive timestamp in nanoseconds.
pub const SCM_TIMESTAMPNS: i32 = 35;

/// The number that the four bytes from `at` on stand for.
pub open spec fn le_u32(bytes: Seq<u8>, at: int) -> int {
    bytes[at] as int + bytes[at + 1] as int * 0x100 + bytes[at + 2] as int * 0x1_0000 + bytes[at
        + 3] as int * 0x100_0000
}

/// The number that the eight bytes from `at` on stand for.
pub open spec fn le_u64(bytes: Seq<u8>, at: int) -> int {
    le_u32(bytes, at) + le_u32(bytes, at + 4) * 0x1_0000_0000
}

/// The signed number that the four bytes from `at` on stand for.
pub open spec fn le_i32(bytes: Seq<u8>, at: int) -> int {
    if le_u32(bytes, at) < 0x8000_0000 {
        le_u32(bytes, at)
    } else {
        le_u32(bytes, at) - 0x1_0000_0000
    }
}

/// The signed number that the eight bytes from `at` on stand for.
pub open spec fn le_i64(bytes: Seq<u8>, at: int) -> int {
    if le_u64(bytes, at) < 0x8000_0000_0000_0000 {
        le_u64(bytes, at)
    } else {
        le_u64(bytes, at) - 0x1_0000_0000_0000_0000
    }
}

/// The smallest multiple of eight that is not less than `len`.
pub open spec fn aligned(len: int) -> int {
    (len + 7) / 8 * 8
}

/// Whether a control message starts at `at` and lies within the buffer.
pub open spec fn message_at(control: Seq<u8>, at: int) -> bool {
    &&& 0 <= at
    &&& at + HEADER_SIZE <= control.len()
    &&& HEADER_SIZE <= le_u64(control, at)
    &&& at + le_u64(control, at) <= control.len()
}

/// Whether the message at `at` carries a receive timestamp: it is of the
/// socket level and of the timestamp type, and its payload is complete.
pub open spec fn timestamp_at(control: Seq<u8>, at: int) -> bool {
    &&& le_i32(control, at + 8) == SOL_SOCKET
    &&& le_i32(control, at + 12) == SCM_TIMESTAMPNS
    &&& le_u64(control, at) >= HEADER_SIZE + PAYLOAD_SIZE
}

/// The timestamp of the first message from `at` on that carries one. The
/// search ends where no complete message begins.
pub open spec fn scan(control: Seq<u8>, at: int) -> Option<TimeSpec>
    decreases control.len() - at,
{
    if !message_at(control, at) {
        None
    } else if timestamp_at(control, at) {
        Some(
            TimeSpec {
                tv_sec: le_i64(control, at + 16) as i64,
                tv_nsec: le_i64(control, at + 24) as i64,
            },
        )
    } else if at + aligned(le_u64(control, at)) > control.len() {
        None
    } else {
        scan(control, at + aligned(le_u64(control, at)))
    }
}

/// The time at which a packet was received: the timestamp of its first
/// control message that carries one, and `fallback` where none does.
pub open spec fn received_at(control: Seq<u8>, fallback: TimeSpec) -> TimeSpec {
    match scan(control, 0) {
        Some(stamp) => stamp,
        None => fallback,
    }
}

fn read_u32(bytes: &[u8], at: usize) -> (value: u32)
    requires
        at + 4 <= bytes@.len(),
    ensures
        value == le_u32(bytes@, at as int),
{
    let b0 = bytes[at] as u32;
    let b1 = bytes[at + 1] as u32;
    let b2 = bytes[at + 2] as u32;
    let b3 = bytes[at + 3] as u32;
    b0 + b1 * 0x100 + b2 * 0x1_0000 + b3 * 0x100_0000
}

fn read_u64(bytes: &[u8], at: usize) -> (value: u64)
    requires
        at + 8 <= bytes.len(),
    ensures
        value == le_u64(bytes@, at as int),
{
    let low = read_u32(bytes, at) as u64;
    let high = read_u32(bytes, at + 4) as u64;
    low + high * 0x1_0000_0000
}

fn read_i32(bytes: &[u8], at: usize) -> (value: i32)
    requires
        at + 4 <= bytes@.len(),
    ensures
        value == le_i32(bytes@, at as int),
{
    let raw = read_u32(bytes, at);
    if raw < 0x8000_0000 {
        raw as i32
    } else {
        ((raw - 0x8000_0000) as i32) + i32::MIN
    }
}

fn read_i64(bytes: &[u8], at: usize) -> (value: i64)
    requires
        at + 8 <= bytes.len(),
    ensures
        value == le_i64(bytes@, at as int),
{
    let raw = read_u64(bytes, at);
    if raw < 0x8000_0000_0000_0000 {
        raw as i64
    } else {
        ((raw - 0x8000_0000_0000_0000) as i64) + i64::MIN
    }
}

/// Looks for a receive timestamp among the control messages of a packet: that
/// of the first message that carries one, read from where the message list
/// starts up to the first place where no complete message begins.
pub fn find_timestamp(control: &[u8]) -> (found: Option<TimeSpec>)
    ensures
        found == scan(control@, 0),
{
    let end = control.len();
    let mut at: usize = 0;
    while at <= end && end - at >= HEADER_SIZE
        invariant
            end == control@.len(),
            scan(control@, 0) == scan(control@, at as int),
        decreases end - at,
    {
        let len = read_u64(control, at);
        if len < HEADER_SIZE as u64 || len > (end - at) as u64 {
            return None;
        }
        let level = read_i32(control, at + 8);
        let kind = read_i32(control, at + 12);
        if level == SOL_SOCKET && kind == SCM_TIMESTAMPNS && len >= (HEADER_SIZE
            + PAYLOAD_SIZE) as u64 {
            let tv_sec = read_i64(control, at + 16);
            let tv_nsec = read_i64(control, at + 24);
            return Some(TimeSpec { tv_sec, tv_nsec });
        }
        let len = len as usize;
        let rest = end - at - len;
        let pad: usize = (8 - len % 8) % 8;
        assert(len + pad == aligned(len as int));
        if rest < pad {
            return None;
        }
        at = at + len + pad;
    }
    None
}

/// The time at which a packet was received: the timestamp among its control
/// messages, and `fallback` where there is none. The caller passes the time
/// of its clock as `fallback`, so that every packet gets a time.
pub fn receive_timestamp(control: &[u8], fallback: TimeSpec) -> (stamp: TimeSpec)
    ensures
        stamp == received_at(control@, fallback),
{
    match find_timestamp(control) {
        Some(stamp) => stamp,
        None => fallback,
    }
}

} // verus!
