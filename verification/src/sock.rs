//! The raw socket of a shared VLAN: the steps that open it, and what the
//! results of the calls on it mean.
//!
//! The caller makes the system calls. Opening a socket is a chain of them, and
//! each link of the chain is a type of its own here: it says which call to
//! make, and its `returned` method takes what the call returned and gives the
//! next link, or says how to give up. Once the VLAN reference has been taken,
//! giving up always gives the reference back.

use vstd::prelude::*;
use crate::error::VlanError;
use crate::shaping::{device_name, vlan_name};
use crate::time::TimeSpec;
use crate::timestamp::{receive_timestamp, received_at};

verus! {

/// The flags that ask for receive timestamps: raw hardware timestamps and
/// software timestamps.
pub const TIMESTAMP_FLAGS: u32 = 0x50;

/// An open raw socket that is bound to the VLAN device `vlanid` of `ifname`.
#[derive(Debug)]
pub struct TsnSocket {
    pub fd: i32,
    pub ifname: String,
    pub vlanid: u16,
}

/// The value of a receive timeout as the socket option takes it.
#[derive(Clone, Copy, Debug, PartialEq, Eq, Structural)]
pub struct TimeVal {
    pub tv_sec: i64,
    pub tv_usec: i64,
}

/// What a system call's return value means: a negative one is a failure, which
/// carries the `errno` that came with it, and any other is the result.
pub open spec fn call_result(returned: isize, errno: i32) -> Result<isize, VlanError> {
    if returned < 0 {
        Err(VlanError::SocketError { errno })
    } else {
        Ok(returned)
    }
}

/// What the return value of a system call without a result means.
pub open spec fn call_done(returned: i32, errno: i32) -> Result<(), VlanError> {
    if returned < 0 {
        Err(VlanError::SocketError { errno })
    } else {
        Ok(())
    }
}

/// The two bytes of `value` in the other order.
pub open spec fn swapped(value: u16) -> u16 {
    (value % 0x100 * 0x100 + value / 0x100) as u16
}

/// `socket::htons`, which turns a number into network byte order. What comes
/// back depends on the byte order of the machine: the number itself on one
/// that stores the most significant byte first, and else its two bytes
/// swapped. The contract claims no more than that it is one of the two.
#[verifier::external_body]
fn network_order(value: u16) -> (ordered: u16)
    ensures
        ordered == value || ordered == swapped(value),
{
    socket::htons(value)
}

/// How to give up on opening a socket after the VLAN reference was taken:
/// close the descriptor, if one is named, give the reference back, and report
/// the error.
#[derive(Debug)]
pub struct Abandon {
    pub close: Option<i32>,
    pub error: VlanError,
}

/// A socket that is to be opened. The VLAN reference comes first.
#[derive(Debug)]
pub struct OpenRequest {
    pub ifname: String,
    pub vlanid: u16,
    pub priority: u32,
    pub ethertype: u16,
}

/// The first call: create a raw packet socket for `protocol`, which is the
/// ethertype in network byte order.
#[derive(Debug)]
pub struct SocketCall {
    pub request: OpenRequest,
    pub protocol: u16,
}

/// The second call: set the priority of the socket `fd`.
#[derive(Debug)]
pub struct PriorityCall {
    pub request: OpenRequest,
    pub fd: i32,
}

/// The third call: look up the index of the VLAN device `name`.
#[derive(Debug)]
pub struct IndexCall {
    pub request: OpenRequest,
    pub fd: i32,
    pub name: String,
}

/// The last call: bind the socket `fd` to the device with index `ifindex`.
#[derive(Debug)]
pub struct BindCall {
    pub request: OpenRequest,
    pub fd: i32,
    pub ifindex: u32,
}

/// Begins to open a socket on the VLAN `vlanid` of `ifname` that sends with
/// `priority` and carries frames of the ethertype `proto`.
pub fn sock_open(ifname: &str, vlanid: u16, priority: u32, proto: u16) -> (request: OpenRequest)
    ensures
        request.ifname@ == ifname@,
        request.vlanid == vlanid,
        request.priority == priority,
        request.ethertype == proto,
{
    OpenRequest { ifname: ifname.to_owned(), vlanid, priority, ethertype: proto }
}

impl OpenRequest {
    /// Goes on after the VLAN reference was asked for. Where it was refused
    /// the socket is not opened, and nothing has to be given back.
    pub fn acquired(self, taken: Result<(), VlanError>) -> (next: Result<SocketCall, VlanError>)
        ensures
            match taken {
                Ok(_) => {
                    &&& next is Ok
                    &&& next->Ok_0.request == self
                    &&& next->Ok_0.protocol == self.ethertype || next->Ok_0.protocol == swapped(
                        self.ethertype,
                    )
                },
                Err(error) => next == Err::<SocketCall, VlanError>(error),
            },
    {
        match taken {
            Ok(_) => {
                let protocol = network_order(self.ethertype);
                Ok(SocketCall { request: self, protocol })
            },
            Err(error) => Err(error),
        }
    }
}

impl SocketCall {
    /// Goes on after the socket was asked for: `fd` is what the call
    /// returned. A negative one means that there is no socket, and nothing to
    /// close.
    pub fn returned(self, fd: i32, errno: i32) -> (next: Result<PriorityCall, Abandon>)
        ensures
            fd < 0 ==> next is Err && next->Err_0.close is None && next->Err_0.error == (
            VlanError::SocketError { errno }),
            fd >= 0 ==> next is Ok && next->Ok_0.request == self.request && next->Ok_0.fd == fd,
    {
        if fd < 0 {
            Err(Abandon { close: None, error: VlanError::SocketError { errno } })
        } else {
            Ok(PriorityCall { request: self.request, fd })
        }
    }
}

impl PriorityCall {
    /// Goes on after the priority was set: `returned` is what the call
    /// returned. The device to look up next is the VLAN device.
    pub fn returned(self, returned: i32, errno: i32) -> (next: Result<IndexCall, Abandon>)
        ensures
            returned < 0 ==> next is Err && next->Err_0.close == Some(self.fd) && next->Err_0.error
                == (VlanError::SocketError { errno }),
            returned >= 0 ==> {
                &&& next is Ok
                &&& next->Ok_0.request == self.request
                &&& next->Ok_0.fd == self.fd
                &&& next->Ok_0.name@ == vlan_name(self.request.ifname@, self.request.vlanid)
            },
    {
        if returned < 0 {
            Err(Abandon { close: Some(self.fd), error: VlanError::SocketError { errno } })
        } else {
            let name = device_name(self.request.ifname.as_str(), self.request.vlanid);
            Ok(IndexCall { request: self.request, fd: self.fd, name })
        }
    }
}

impl IndexCall {
    /// Goes on after the device was looked up: `ifindex` is its index, and
    /// zero where there is no such device.
    pub fn returned(self, ifindex: u32, errno: i32) -> (next: Result<BindCall, Abandon>)
        ensures
            ifindex == 0 ==> next is Err && next->Err_0.close == Some(self.fd) && next->Err_0.error
                == (VlanError::SocketError { errno }),
            ifindex != 0 ==> {
                &&& next is Ok
                &&& next->Ok_0.request == self.request
                &&& next->Ok_0.fd == self.fd
                &&& next->Ok_0.ifindex == ifindex
            },
    {
        if ifindex == 0 {
            Err(Abandon { close: Some(self.fd), error: VlanError::SocketError { errno } })
        } else {
            Ok(BindCall { request: self.request, fd: self.fd, ifindex })
        }
    }
}

impl BindCall {
    /// Ends the chain after the socket was bound: `returned` is what the call
    /// returned.
    pub fn returned(self, returned: i32, errno: i32) -> (next: Result<TsnSocket, Abandon>)
        ensures
            returned < 0 ==> next is Err && next->Err_0.close == Some(self.fd) && next->Err_0.error
                == (VlanError::SocketError { errno }),
            returned >= 0 ==> {
                &&& next is Ok
                &&& next->Ok_0.fd == self.fd
                &&& next->Ok_0.ifname == self.request.ifname
                &&& next->Ok_0.vlanid == self.request.vlanid
            },
    {
        if returned < 0 {
            Err(Abandon { close: Some(self.fd), error: VlanError::SocketError { errno } })
        } else {
            Ok(TsnSocket { fd: self.fd, ifname: self.request.ifname, vlanid: self.request.vlanid })
        }
    }
}

/// The receive timeout of `secs` seconds and `subsec_micros` microseconds as
/// the socket option takes it. Seconds beyond what the field holds count as
/// the most that it holds.
pub fn timeout_value(secs: u64, subsec_micros: u32) -> (value: TimeVal)
    ensures
        value.tv_sec == if secs <= i64::MAX {
            secs as int
        } else {
            i64::MAX as int
        },
        value.tv_usec == subsec_micros,
{
    let tv_sec: i64 = if secs <= i64::MAX as u64 {
        secs as i64
    } else {
        i64::MAX
    };
    TimeVal { tv_sec, tv_usec: subsec_micros as i64 }
}

/// Says how setting the receive timeout of `sock` ended, given what the call
/// returned.
pub fn sock_set_timeout(sock: &mut TsnSocket, returned: i32, errno: i32) -> (result: Result<
    (),
    VlanError,
>)
    ensures
        result == call_done(returned, errno),
        *final(sock) == *old(sock),
{
    if returned < 0 {
        Err(VlanError::SocketError { errno })
    } else {
        Ok(())
    }
}

/// Says how sending on `sock` ended, given what the call returned: the number
/// of bytes that were sent, or the failure.
pub fn send(sock: &TsnSocket, returned: isize, errno: i32) -> (result: Result<isize, VlanError>)
    ensures
        result == call_result(returned, errno),
{
    if returned < 0 {
        Err(VlanError::SocketError { errno })
    } else {
        Ok(returned)
    }
}

/// Says how receiving on `sock` ended, given what the call returned: the
/// number of bytes that were received, or the failure.
pub fn recv(sock: &TsnSocket, returned: isize, errno: i32) -> (result: Result<isize, VlanError>)
    ensures
        result == call_result(returned, errno),
{
    if returned < 0 {
        Err(VlanError::SocketError { errno })
    } else {
        Ok(returned)
    }
}

/// Says how receiving a message with its control messages on `sock` ended,
/// given what the call returned: the number of bytes that were received, or
/// the failure.
pub fn recv_msg(sock: &TsnSocket, returned: isize, errno: i32) -> (result: Result<
    isize,
    VlanError,
>)
    ensures
        result == call_result(returned, errno),
{
    if returned < 0 {
        Err(VlanError::SocketError { errno })
    } else {
        Ok(returned)
    }
}

/// Ends the life of `sock` after its VLAN reference was given back and its
/// descriptor closed, whether giving back succeeded or not. The socket holds
/// no descriptor any more, and a failure to give the reference back is
/// reported.
pub fn sock_close(sock: &mut TsnSocket, released: Result<(), VlanError>) -> (result: Result<
    (),
    VlanError,
>)
    ensures
        result == released,
        final(sock).fd == -1,
        final(sock).ifname == old(sock).ifname,
        final(sock).vlanid == old(sock).vlanid,
{
    sock.fd = -1;
    released
}

/// The right to read receive timestamps, which a socket gives once they have
/// been switched on.
#[derive(Debug)]
pub struct Timestamps {
    fd: i32,
}

impl Timestamps {
    /// The descriptor of the socket that gave the right.
    pub closed spec fn socket(&self) -> i32 {
        self.fd
    }

    /// The time at which a packet was received: the timestamp among its
    /// control messages, and `fallback`, the time of the caller's clock, where
    /// there is none.
    pub fn extract(&self, control: &[u8], fallback: TimeSpec) -> (stamp: TimeSpec)
        ensures
            stamp == received_at(control@, fallback),
    {
        receive_timestamp(control, fallback)
    }
}

impl TsnSocket {
    /// Says how setting the receive timeout ended, given what the call
    /// returned.
    pub fn set_timeout(&mut self, returned: i32, errno: i32) -> (result: Result<(), VlanError>)
        ensures
            result == call_done(returned, errno),
            *final(self) == *old(self),
    {
        sock_set_timeout(self, returned, errno)
    }

    /// Says how sending ended, given what the call returned.
    pub fn send(&self, returned: isize, errno: i32) -> (result: Result<isize, VlanError>)
        ensures
            result == call_result(returned, errno),
    {
        send(self, returned, errno)
    }

    /// Says how receiving ended, given what the call returned.
    pub fn recv(&self, returned: isize, errno: i32) -> (result: Result<isize, VlanError>)
        ensures
            result == call_result(returned, errno),
    {
        recv(self, returned, errno)
    }

    /// Says how receiving a message ended, given what the call returned.
    pub fn recv_msg(&self, returned: isize, errno: i32) -> (result: Result<isize, VlanError>)
        ensures
            result == call_result(returned, errno),
    {
        recv_msg(self, returned, errno)
    }

    /// Says how switching receive timestamps on ended, given what setting the
    /// option to [`TIMESTAMP_FLAGS`] returned: with the right to read them, or
    /// with the failure.
    pub fn enable_timestamps(&self, returned: i32, errno: i32) -> (result: Result<
        Timestamps,
        VlanError,
    >)
        ensures
            returned < 0 ==> result == Err::<Timestamps, VlanError>(
                VlanError::SocketError { errno },
            ),
            returned >= 0 ==> result is Ok && result->Ok_0.socket() == self.fd,
    {
        if returned < 0 {
            Err(VlanError::SocketError { errno })
        } else {
            Ok(Timestamps { fd: self.fd })
        }
    }

    /// Ends the life of the socket after its VLAN reference was given back
    /// and its descriptor closed.
    pub fn close(&mut self, released: Result<(), VlanError>) -> (result: Result<(), VlanError>)
        ensures
            result == released,
            final(self).fd == -1,
            final(self).ifname == old(self).ifname,
            final(self).vlanid == old(self).vlanid,
    {
        sock_close(self, released)
    }
}

} // verus!
