//! Taking and giving back a reference to a shared VLAN.
//!
//! The first process that takes a reference creates the VLAN device and its
//! shaping, and the last one that gives its reference back removes them. Both
//! happen while the caller holds the lock of the owner table, so that each
//! call sees the table as the call before it left it.
//!
//! The functions here decide; the caller acts. To take a reference it locks
//! the table, reads it with [`OwnerSet::read`], asks [`acquire`] what to do,
//! runs the commands of the answer through a [`CommandRun`], hands the result
//! to [`Acquisition::record`], stores the region that comes back, and unlocks.
//! To give one back it does the same with [`release`] and
//! [`Release::settle`].

use vstd::prelude::*;
use crate::error::VlanError;
use crate::owners::{can_hold, inserted, region_of, OwnerSet, SHM_SIZE};
use crate::shaping::{create_vlan, delete_lines, delete_vlan, Config};
use crate::text::lines;

verus! {

/// Why a reference of `pid` cannot be taken on a table that holds `owners`,
/// if it cannot: an empty table asks for the device to be created, which a
/// configuration with both shapers forbids, and a reference needs a slot.
pub open spec fn acquire_error(owners: Seq<u32>, pid: u32, conflicting: bool) -> Option<
    VlanError,
> {
    if owners.len() == 0 && conflicting {
        Some(VlanError::ConfigConflictError)
    } else if !can_hold(owners, pid) {
        Some(VlanError::ShmError)
    } else {
        None
    }
}

/// Whether taking a reference on a table that holds `owners` creates the
/// device: it does when nobody holds one.
pub open spec fn acquire_creates(owners: Seq<u32>) -> bool {
    owners.len() == 0
}

/// Whether `pid` giving a reference back on a table that holds `owners`
/// removes the device: it does when nobody is left.
pub open spec fn release_deletes(owners: Seq<u32>, pid: u32) -> bool {
    owners.remove_value(pid).len() == 0
}

/// What taking a reference asks of the caller.
#[derive(Debug)]
pub struct Acquisition {
    /// The commands to run, in order, before anything is stored. There are
    /// none where the device exists already.
    pub commands: Vec<String>,
    /// The owners to store once every command has succeeded.
    pub owners: OwnerSet,
}

/// What is to become of the shared-memory segment.
#[derive(Debug)]
pub enum Storage {
    /// Store this region in it.
    Write([u8; SHM_SIZE]),
    /// Unlink it.
    Destroy,
}

/// What giving a reference back asks of the caller.
#[derive(Debug)]
pub struct Release {
    /// The commands to run, in order. There are none where another owner is
    /// left.
    pub commands: Vec<String>,
    /// The owners that are left.
    pub owners: OwnerSet,
}

/// Decides how the process `pid` takes a reference to the VLAN `vlan_id` of
/// `ifname`, given the owners that it read under the lock.
///
/// Where nobody holds a reference the device has to be created: a
/// configuration with both shapers is refused, and the answer holds the
/// commands that create and shape the device. Where somebody does, there is
/// nothing to run. Either way the answer holds the owners with `pid` among
/// them. The call fails, before anything is run or stored, where the table
/// cannot record `pid`.
pub fn acquire(owners: OwnerSet, pid: u32, config: &Config, ifname: &str, vlan_id: u16) -> (result:
    Result<Acquisition, VlanError>)
    requires
        owners.wf(),
    ensures
        match acquire_error(owners@, pid, config.conflicting()) {
            Some(error) => result == Err::<Acquisition, VlanError>(error),
            None => {
                &&& result is Ok
                &&& result->Ok_0.owners.wf()
                &&& result->Ok_0.owners@ == inserted(owners@, pid)
                &&& lines(result->Ok_0.commands@) == if acquire_creates(owners@) {
                    config.create_lines(ifname@, vlan_id)
                } else {
                    Seq::<Seq<char>>::empty()
                }
            },
        },
{
    let mut owners = owners;
    let commands = if owners.is_empty() {
        match create_vlan(config, ifname, vlan_id) {
            Ok(commands) => commands,
            Err(error) => {
                return Err(error);
            },
        }
    } else {
        Vec::new()
    };
    if !owners.insert(pid) {
        return Err(VlanError::ShmError);
    }
    Ok(Acquisition { commands, owners })
}

impl Acquisition {
    /// Says what to store after the commands ran: the region with the new
    /// owner where they all succeeded, and nothing where one failed, so that
    /// a device that was not created leaves no reference behind.
    pub fn record(self, ran: Result<(), VlanError>) -> (result: Result<[u8; SHM_SIZE], VlanError>)
        requires
            self.owners.wf(),
        ensures
            match ran {
                Ok(_) => result is Ok && result->Ok_0@ == region_of(self.owners@),
                Err(error) => result == Err::<[u8; SHM_SIZE], VlanError>(error),
            },
    {
        match ran {
            Ok(_) => Ok(self.owners.to_region()),
            Err(error) => Err(error),
        }
    }
}

/// Decides how the process `pid` gives its reference to the VLAN `vlan_id` of
/// `ifname` back, given the owners that it read under the lock.
///
/// The first slot of `pid` is freed. Where nobody is left, the answer holds
/// the commands that remove the device and the shaping; where somebody is,
/// there is nothing to run.
pub fn release(owners: OwnerSet, pid: u32, ifname: &str, vlan_id: u16) -> (result: Release)
    requires
        owners.wf(),
    ensures
        result.owners.wf(),
        result.owners@ == owners@.remove_value(pid),
        lines(result.commands@) == if release_deletes(owners@, pid) {
            delete_lines(ifname@, vlan_id)
        } else {
            Seq::<Seq<char>>::empty()
        },
{
    let mut owners = owners;
    owners.remove(pid);
    let commands = if owners.is_empty() {
        delete_vlan(ifname, vlan_id)
    } else {
        Vec::new()
    };
    Release { commands, owners }
}

impl Release {
    /// Says what to do with the segment after the commands ran, and how the
    /// call ends. The segment is unlinked where nobody is left and else
    /// stores the owners that are; a command that failed is reported, but the
    /// reference is gone all the same.
    pub fn settle(self, ran: Result<(), VlanError>) -> (result: (Storage, Result<(), VlanError>))
        requires
            self.owners.wf(),
        ensures
            result.1 == ran,
            self.owners@.len() == 0 ==> result.0 is Destroy,
            self.owners@.len() != 0 ==> result.0 is Write && result.0->Write_0@ == region_of(
                self.owners@,
            ),
    {
        if self.owners.is_empty() {
            (Storage::Destroy, ran)
        } else {
            (Storage::Write(self.owners.to_region()), ran)
        }
    }
}

/// What the exit status of a command means: zero is success, and anything
/// else a failure that carries the status.
pub open spec fn status_result(exit_code: i32) -> Result<(), VlanError> {
    if exit_code == 0 {
        Ok(())
    } else {
        Err(VlanError::DeviceCommandError { exit_code })
    }
}

/// A list of commands on its way through the system, one command at a time.
/// The run stops at the first command that fails.
#[derive(Debug)]
pub struct CommandRun {
    commands: Vec<String>,
    done: usize,
    failure: Option<i32>,
}

impl CommandRun {
    /// The commands of the run.
    pub closed spec fn commands(&self) -> Seq<Seq<char>> {
        lines(self.commands@)
    }

    /// How many commands have succeeded.
    pub closed spec fn done(&self) -> nat {
        self.done as nat
    }

    /// The exit status of the command that failed, if one did.
    pub closed spec fn failure(&self) -> Option<i32> {
        self.failure
    }

    /// Whether the run is in a state that its methods can have left.
    pub closed spec fn wf(&self) -> bool {
        &&& self.done <= self.commands@.len()
        &&& self.failure is Some ==> self.failure->Some_0 != 0 && self.done < self.commands@.len()
    }

    /// Whether a command is waiting to be run.
    pub open spec fn pending(&self) -> bool {
        self.failure() is None && self.done() < self.commands().len()
    }

    /// A run of `commands` of which none has been run yet.
    pub fn new(commands: Vec<String>) -> (run: CommandRun)
        ensures
            run.wf(),
            run.commands() == lines(commands@),
            run.done() == 0,
            run.failure() is None,
    {
        CommandRun { commands, done: 0, failure: None }
    }

    /// The command to run now, or nothing where the run is over.
    pub fn current(&self) -> (command: Option<&String>)
        requires
            self.wf(),
        ensures
            command is Some == self.pending(),
            command is Some ==> command->Some_0@ == self.commands()[self.done() as int],
    {
        if self.failure.is_none() && self.done < self.commands.len() {
            Some(&self.commands[self.done])
        } else {
            None
        }
    }

    /// Takes note of the exit status of the current command. Zero lets the
    /// run go on with the next command, anything else ends it. Where no
    /// command was waiting the run stays as it is.
    pub fn exited(&mut self, exit_code: i32)
        requires
            old(self).wf(),
        ensures
            final(self).wf(),
            final(self).commands() == old(self).commands(),
            final(self).done() == if old(self).pending() && exit_code == 0 {
                old(self).done() + 1
            } else {
                old(self).done()
            },
            final(self).failure() == if old(self).pending() && exit_code != 0 {
                Some(exit_code)
            } else {
                old(self).failure()
            },
    {
        if self.failure.is_none() && self.done < self.commands.len() {
            if exit_code == 0 {
                self.done = self.done + 1;
            } else {
                self.failure = Some(exit_code);
            }
        }
    }

    /// How the run ended, or nothing while a command is waiting: success
    /// where every command succeeded, and else the failure of the one that
    /// did not.
    pub fn result(&self) -> (result: Option<Result<(), VlanError>>)
        requires
            self.wf(),
        ensures
            result is None == self.pending(),
            result is Some ==> result->Some_0 == match self.failure() {
                Some(exit_code) => status_result(exit_code),
                None => Ok::<(), VlanError>(()),
            },
    {
        match self.failure {
            Some(exit_code) => Some(Err(VlanError::DeviceCommandError { exit_code })),
            None => if self.done < self.commands.len() {
                None
            } else {
                Some(Ok(()))
            },
        }
    }
}

} // verus!
