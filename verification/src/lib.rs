//! Shared VLAN sub-interfaces for time-sensitive networking experiments.
//!
//! Several unrelated processes may open raw sockets on the same VLAN of the
//! same physical interface. The VLAN device and its traffic shaping are created
//! by the first of them and removed by the last, and the processes agree on who
//! that is through a small table of process identifiers kept in shared memory.
//!
//! This crate holds the decisions of that protocol: the owner table and its
//! byte layout, the rules of acquiring and releasing a reference, the command
//! lines that build and remove the device, the steps of opening a socket, and
//! the scan of a control-message buffer for a receive timestamp. Locking,
//! memory mapping, process spawning and socket calls are left to the caller,
//! who hands their results in as plain values. The one thing that the library
//! asks the system itself is whether the process of an owner is still alive.

pub mod error;
pub mod laws;
pub mod lifecycle;
pub mod owners;
pub mod perf;
pub mod shaping;
pub mod sock;
pub mod text;
pub mod time;
pub mod timestamp;

pub use crate::error::VlanError;
pub use crate::lifecycle::{acquire, release, Acquisition, CommandRun, Release, Storage};
pub use crate::owners::{OwnerSet, SHM_SIZE, SLOT_COUNT};
pub use crate::perf::PerfOpField;
pub use crate::shaping::{
    create_vlan,
    delete_vlan,
    device_name,
    setup_cbs,
    setup_tas,
    vlan_create_commands,
    CbsChild,
    CbsConfig,
    Config,
    TasConfig,
};
pub use crate::sock::{
    recv,
    recv_msg,
    send,
    sock_close,
    sock_open,
    sock_set_timeout,
    timeout_value,
    Abandon,
    BindCall,
    IndexCall,
    OpenRequest,
    PriorityCall,
    SocketCall,
    TimeVal,
    Timestamps,
    TsnSocket,
    TIMESTAMP_FLAGS,
};
pub use crate::time::{timespecff_diff, TimeSpec};
pub use crate::timestamp::{find_timestamp, receive_timestamp};
