//! The owner table of one VLAN: which processes hold a reference to it.
//!
//! The table lives in a shared-memory region of 128 bytes, laid out as 32
//! slots of four bytes each. A slot holds a process identifier, least
//! significant byte first, and zero marks a free slot. A process that has died
//! without giving its reference back is dropped whenever the table is read.

use nix::sys::signal::kill;
use nix::unistd::Pid;
use vstd::prelude::*;

verus! {

/// The size of the shared-memory region in bytes.
pub const SHM_SIZE: usize = 128;

/// The number of slots in the region.
pub const SLOT_COUNT: usize = 32;

/// The value of slot `i` of a region: its four bytes, least significant first.
pub open spec fn slot_at(region: Seq<u8>, i: int) -> u32 {
    (region[4 * i] as int + region[4 * i + 1] as int * 0x100 + region[4 * i + 2] as int * 0x1_0000
        + region[4 * i + 3] as int * 0x100_0000) as u32
}

/// The slots of a region, in order.
pub open spec fn slots_of(region: Seq<u8>) -> Seq<u32> {
    Seq::new(SLOT_COUNT as nat, |i: int| slot_at(region, i))
}

/// The slots that are not free, in order.
pub open spec fn occupied(slots: Seq<u32>) -> Seq<u32>
    decreases slots.len(),
{
    if slots.len() == 0 {
        Seq::empty()
    } else if slots.last() == 0 {
        occupied(slots.drop_last())
    } else {
        occupied(slots.drop_last()).push(slots.last())
    }
}

/// The owners whose process is alive, in order: `pids[i]` stays where
/// `alive[i]` is true, and goes where it is false or missing.
pub open spec fn survivors(pids: Seq<u32>, alive: Seq<bool>) -> Seq<u32>
    decreases pids.len(),
{
    if pids.len() == 0 {
        Seq::empty()
    } else if pids.len() <= alive.len() && alive[pids.len() - 1] {
        survivors(pids.drop_last(), alive).push(pids.last())
    } else {
        survivors(pids.drop_last(), alive)
    }
}

/// Byte `k` of a slot value, counted from the least significant.
pub open spec fn byte_of(value: u32, k: int) -> u8 {
    if k == 0 {
        (value % 0x100) as u8
    } else if k == 1 {
        (value / 0x100 % 0x100) as u8
    } else if k == 2 {
        (value / 0x1_0000 % 0x100) as u8
    } else {
        (value / 0x100_0000) as u8
    }
}

/// The region that stores `pids`: one slot for each owner in order, then free
/// slots.
pub open spec fn region_of(pids: Seq<u32>) -> Seq<u8> {
    Seq::new(
        SHM_SIZE as nat,
        |j: int|
            if j / 4 < pids.len() {
                byte_of(pids[j / 4], j % 4)
            } else {
                0u8
            },
    )
}

/// What a table may hold: at most as many owners as there are slots, none of
/// them zero.
pub open spec fn valid_owners(pids: Seq<u32>) -> bool {
    &&& pids.len() <= SLOT_COUNT
    &&& forall|i: int| 0 <= i < pids.len() ==> pids[i] != 0
}

/// Whether a table that holds `pids` can record a reference of `pid`: `pid` is
/// not zero, and it is an owner already or a slot is free.
pub open spec fn can_hold(pids: Seq<u32>, pid: u32) -> bool {
    pid != 0 && (pids.contains(pid) || pids.len() < SLOT_COUNT)
}

/// The owners after `pid` took a reference: unchanged where `pid` is an owner
/// already, else with `pid` at the end.
pub open spec fn inserted(pids: Seq<u32>, pid: u32) -> Seq<u32> {
    if pids.contains(pid) {
        pids
    } else {
        pids.push(pid)
    }
}

/// The owners of one VLAN, in the order of their slots.
#[derive(Debug)]
pub struct OwnerSet {
    pids: Vec<u32>,
}

impl View for OwnerSet {
    type V = Seq<u32>;

    closed spec fn view(&self) -> Seq<u32> {
        self.pids@
    }
}

/// `nix::sys::signal::kill` with no signal, which only tests whether a signal
/// could be sent to the process. The answer depends on what runs on the
/// machine at that moment, so the contract claims nothing about it.
#[verifier::external_body]
fn process_exists(pid: u32) -> (alive: bool) {
    kill(Pid::from_raw(pid as i32), None).is_ok()
}

impl OwnerSet {
    /// Whether the table fits its region.
    pub open spec fn wf(&self) -> bool {
        valid_owners(self@)
    }

    /// A table without owners.
    pub fn new() -> (owners: OwnerSet)
        ensures
            owners.wf(),
            owners@ == Seq::<u32>::empty(),
    {
        OwnerSet { pids: Vec::new() }
    }

    /// The owners that a region records: its slots that are not free, in
    /// order, whether their processes are alive or not.
    pub fn from_region(region: &[u8; SHM_SIZE]) -> (owners: OwnerSet)
        ensures
            owners.wf(),
            owners@ == occupied(slots_of(region@)),
    {
        let mut pids: Vec<u32> = Vec::new();
        let mut i: usize = 0;
        while i < SLOT_COUNT
            invariant
                0 <= i <= SLOT_COUNT,
                pids@ == occupied(slots_of(region@).take(i as int)),
                pids@.len() <= i,
                forall|j: int| 0 <= j < pids@.len() ==> pids@[j] != 0,
            decreases SLOT_COUNT - i,
        {
            let b0 = region[4 * i] as u32;
            let b1 = region[4 * i + 1] as u32;
            let b2 = region[4 * i + 2] as u32;
            let b3 = region[4 * i + 3] as u32;
            let value: u32 = b0 + b1 * 0x100 + b2 * 0x1_0000 + b3 * 0x100_0000;
            assert(slots_of(region@).take(i as int + 1).drop_last() =~= slots_of(region@).take(
                i as int,
            ));
            if value != 0 {
                pids.push(value);
            }
            i += 1;
        }
        assert(slots_of(region@).take(SLOT_COUNT as int) =~= slots_of(region@));
        OwnerSet { pids }
    }

    /// The region that stores the table: the owners in order, then free
    /// slots.
    pub fn to_region(&self) -> (region: [u8; SHM_SIZE])
        requires
            self.wf(),
        ensures
            region@ == region_of(self@),
    {
        let mut region = [0u8; SHM_SIZE];
        let n = self.pids.len();
        let mut i: usize = 0;
        while i < n
            invariant
                n == self.pids@.len(),
                n <= SLOT_COUNT,
                0 <= i <= n,
                forall|j: int|
                    0 <= j < 4 * i ==> region@[j] == byte_of(#[trigger] self.pids@[j / 4], j % 4),
                forall|j: int| 4 * i <= j < SHM_SIZE ==> region@[j] == 0,
            decreases n - i,
        {
            let value = self.pids[i];
            region[4 * i] = (value % 0x100) as u8;
            region[4 * i + 1] = (value / 0x100 % 0x100) as u8;
            region[4 * i + 2] = (value / 0x1_0000 % 0x100) as u8;
            region[4 * i + 3] = (value / 0x100_0000) as u8;
            i += 1;
        }
        region
    }

    /// The owners whose process is alive, given one answer for each owner in
    /// order. An owner without an answer counts as dead.
    pub fn retain(&self, alive: &Vec<bool>) -> (owners: OwnerSet)
        requires
            self.wf(),
        ensures
            owners.wf(),
            owners@ == survivors(self@, alive@),
    {
        let n = self.pids.len();
        let mut pids: Vec<u32> = Vec::new();
        let mut i: usize = 0;
        while i < n
            invariant
                n == self.pids@.len(),
                self.wf(),
                0 <= i <= n,
                pids@ == survivors(self.pids@.take(i as int), alive@),
                pids@.len() <= i,
                forall|j: int| 0 <= j < pids@.len() ==> pids@[j] != 0,
            decreases n - i,
        {
            assert(self.pids@.take(i as int + 1).drop_last() =~= self.pids@.take(i as int));
            if i < alive.len() && alive[i] {
                pids.push(self.pids[i]);
            }
            i += 1;
        }
        assert(self.pids@.take(n as int) =~= self.pids@);
        OwnerSet { pids }
    }

    /// Reads the table from its region and drops every owner whose process is
    /// gone: the slots that are not free, in order, each kept if the system
    /// says that its process exists.
    pub fn read(region: &[u8; SHM_SIZE]) -> (owners: OwnerSet)
        ensures
            owners.wf(),
            exists|alive: Seq<bool>|
                alive.len() == occupied(slots_of(region@)).len() && owners@ == survivors(
                    occupied(slots_of(region@)),
                    alive,
                ),
    {
        let recorded = OwnerSet::from_region(region);
        let n = recorded.pids.len();
        let mut alive: Vec<bool> = Vec::new();
        let mut i: usize = 0;
        while i < n
            invariant
                n == recorded.pids@.len(),
                0 <= i <= n,
                alive@.len() == i,
            decreases n - i,
        {
            alive.push(process_exists(recorded.pids[i]));
            i += 1;
        }
        recorded.retain(&alive)
    }

    /// The number of owners.
    pub fn len(&self) -> (n: usize)
        ensures
            n == self@.len(),
    {
        self.pids.len()
    }

    /// Whether nobody holds a reference.
    pub fn is_empty(&self) -> (empty: bool)
        ensures
            empty == (self@.len() == 0),
    {
        self.pids.len() == 0
    }

    /// Whether `pid` is an owner.
    pub fn contains(&self, pid: u32) -> (found: bool)
        ensures
            found == self@.contains(pid),
    {
        let n = self.pids.len();
        let mut i: usize = 0;
        while i < n
            invariant
                n == self.pids@.len(),
                0 <= i <= n,
                forall|j: int| 0 <= j < i ==> self.pids@[j] != pid,
            decreases n - i,
        {
            if self.pids[i] == pid {
                return true;
            }
            i += 1;
        }
        false
    }

    /// The owners, in the order of their slots.
    pub fn pids(&self) -> (pids: Vec<u32>)
        ensures
            pids@ == self@,
    {
        self.pids.clone()
    }

    /// Records a reference of `pid` and says whether it could: an owner stays
    /// as it is, a new one goes to the end, and the table stays unchanged
    /// where `pid` is zero or no slot is free.
    pub fn insert(&mut self, pid: u32) -> (stored: bool)
        requires
            old(self).wf(),
        ensures
            final(self).wf(),
            stored == can_hold(old(self)@, pid),
            final(self)@ == if stored {
                inserted(old(self)@, pid)
            } else {
                old(self)@
            },
    {
        if pid == 0 {
            return false;
        }
        if self.contains(pid) {
            return true;
        }
        if self.pids.len() >= SLOT_COUNT {
            return false;
        }
        self.pids.push(pid);
        true
    }

    /// Gives one reference of `pid` back: its first slot is freed, and the
    /// table stays unchanged where `pid` is no owner.
    pub fn remove(&mut self, pid: u32)
        requires
            old(self).wf(),
        ensures
            final(self).wf(),
            final(self)@ == old(self)@.remove_value(pid),
    {
        let n = self.pids.len();
        let mut i: usize = 0;
        while i < n
            invariant
                n == self.pids@.len(),
                0 <= i <= n,
                self.pids@ == old(self).pids@,
                old(self).wf(),
                forall|j: int| 0 <= j < i ==> self.pids@[j] != pid,
            decreases n - i,
        {
            if self.pids[i] == pid {
                proof {
                    self.pids@.index_of_first_ensures(pid);
                }
                self.pids.remove(i);
                return ;
            }
            i += 1;
        }
        proof {
            self.pids@.index_of_first_ensures(pid);
        }
    }
}

} // verus!
