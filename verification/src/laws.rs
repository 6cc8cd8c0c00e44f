//! What holds of the owner table and of the calls that take and give back
//! references, whatever the processes do.
//!
//! All calls on one VLAN run under its lock, so whatever the processes do
//! amounts to one call after another. [`Shared`] is what they share, [`Call`]
//! one call, and [`effect`] what a call does, put together from the same
//! decisions that [`acquire`](crate::lifecycle::acquire) and
//! [`release`](crate::lifecycle::release) make.

use vstd::prelude::*;
use crate::lifecycle::{acquire_creates, acquire_error, release_deletes};
use crate::owners::{
    can_hold,
    inserted,
    occupied,
    region_of,
    slot_at,
    slots_of,
    survivors,
    valid_owners,
    SHM_SIZE,
    SLOT_COUNT,
};

verus! {

/// What the processes that use one VLAN share.
pub struct Shared {
    /// The owners that the table records.
    pub owners: Seq<u32>,
    /// Whether the VLAN device exists.
    pub device: bool,
    /// How often the commands that create the device have been issued.
    pub creations: nat,
    /// How often the commands that remove the device have been issued.
    pub deletions: nat,
}

/// One call by a process whose peers are all alive.
pub enum Call {
    /// The process `pid` takes a reference. `conflicting` says whether its
    /// configuration asks for both shapers, `ok` whether the commands that
    /// the call issues, if any, all succeed.
    Acquire { pid: u32, conflicting: bool, ok: bool },
    /// The process `pid` gives a reference back. `ok` says whether the
    /// commands that the call issues, if any, all succeed.
    Release { pid: u32, ok: bool },
}

/// A VLAN that nobody has used yet.
pub open spec fn fresh() -> Shared {
    Shared { owners: Seq::empty(), device: false, creations: 0, deletions: 0 }
}

/// What taking a reference does. A call that is refused changes nothing. One
/// on an empty table issues the commands that create the device and records
/// the reference only if they succeed. One on a table with owners only
/// records the reference.
pub open spec fn acquire_effect(s: Shared, pid: u32, conflicting: bool, ok: bool) -> Shared {
    if acquire_error(s.owners, pid, conflicting) is Some {
        s
    } else if acquire_creates(s.owners) {
        if ok {
            Shared {
                owners: inserted(s.owners, pid),
                device: true,
                creations: s.creations + 1,
                deletions: s.deletions,
            }
        } else {
            Shared {
                owners: s.owners,
                device: s.device,
                creations: s.creations + 1,
                deletions: s.deletions,
            }
        }
    } else {
        Shared {
            owners: inserted(s.owners, pid),
            device: s.device,
            creations: s.creations,
            deletions: s.deletions,
        }
    }
}

/// What giving a reference back does. The reference goes in any case. Where
/// nobody is left the commands that remove the device are issued, and the
/// device is gone if they succeed.
pub open spec fn release_effect(s: Shared, pid: u32, ok: bool) -> Shared {
    if release_deletes(s.owners, pid) {
        Shared {
            owners: s.owners.remove_value(pid),
            device: s.device && !ok,
            creations: s.creations,
            deletions: s.deletions + 1,
        }
    } else {
        Shared {
            owners: s.owners.remove_value(pid),
            device: s.device,
            creations: s.creations,
            deletions: s.deletions,
        }
    }
}

/// What a call does.
pub open spec fn effect(s: Shared, call: Call) -> Shared {
    match call {
        Call::Acquire { pid, conflicting, ok } => acquire_effect(s, pid, conflicting, ok),
        Call::Release { pid, ok } => release_effect(s, pid, ok),
    }
}

/// What a run of calls does, one after another.
pub open spec fn replay(s: Shared, calls: Seq<Call>) -> Shared
    decreases calls.len(),
{
    if calls.len() == 0 {
        s
    } else {
        effect(replay(s, calls.drop_last()), calls.last())
    }
}

/// How often the table goes from empty to not empty in a run of calls.
pub open spec fn rises(s: Shared, calls: Seq<Call>) -> nat
    decreases calls.len(),
{
    if calls.len() == 0 {
        0
    } else {
        let before = replay(s, calls.drop_last());
        let after = effect(before, calls.last());
        let risen: nat = if before.owners.len() == 0 && after.owners.len() != 0 {
            1
        } else {
            0
        };
        rises(s, calls.drop_last()) + risen
    }
}

/// How often the table goes from not empty to empty in a run of calls.
pub open spec fn falls(s: Shared, calls: Seq<Call>) -> nat
    decreases calls.len(),
{
    if calls.len() == 0 {
        0
    } else {
        let before = replay(s, calls.drop_last());
        let after = effect(before, calls.last());
        let fallen: nat = if before.owners.len() != 0 && after.owners.len() == 0 {
            1
        } else {
            0
        };
        falls(s, calls.drop_last()) + fallen
    }
}

/// Whether a call keeps the count of commands in step with the table: the
/// commands that create the device succeed where they are issued, and no
/// reference is given back on an empty table.
pub open spec fn in_step(s: Shared, call: Call) -> bool {
    match call {
        Call::Acquire { pid, conflicting, ok } => acquire_error(s.owners, pid, conflicting) is None
            && acquire_creates(s.owners) ==> ok,
        Call::Release { pid, ok } => s.owners.len() != 0,
    }
}

/// Whether every call of a run is in step.
pub open spec fn all_in_step(s: Shared, calls: Seq<Call>) -> bool
    decreases calls.len(),
{
    if calls.len() == 0 {
        true
    } else {
        all_in_step(s, calls.drop_last()) && in_step(replay(s, calls.drop_last()), calls.last())
    }
}

/// Whether every command that a call issues succeeds.
pub open spec fn all_succeed(calls: Seq<Call>) -> bool {
    forall|i: int|
        0 <= i < calls.len() ==> match #[trigger] calls[i] {
            Call::Acquire { pid, conflicting, ok } => ok,
            Call::Release { pid, ok } => ok,
        }
}

/// One call for each of `pids`, in order, that takes a reference with a valid
/// configuration and commands that succeed.
pub open spec fn acquires(pids: Seq<u32>) -> Seq<Call> {
    Seq::new(pids.len(), |i: int| Call::Acquire { pid: pids[i], conflicting: false, ok: true })
}

/// One call for each of `pids`, in order, that gives a reference back with
/// commands that succeed.
pub open spec fn releases(pids: Seq<u32>) -> Seq<Call> {
    Seq::new(pids.len(), |i: int| Call::Release { pid: pids[i], ok: true })
}

/// What taking one value out of a list leaves: nothing changes where the value
/// does not occur, and else the list is shorter by one; a list without
/// repetitions keeps all its other values and stays without repetitions.
pub proof fn lemma_remove_value(s: Seq<u32>, x: u32)
    ensures
        !s.contains(x) ==> s.remove_value(x) == s,
        s.contains(x) ==> s.remove_value(x).len() == s.len() - 1,
        forall|y: u32| s.remove_value(x).contains(y) ==> s.contains(y),
        forall|y: u32| s.contains(y) && y != x ==> s.remove_value(x).contains(y),
        s.no_duplicates() ==> s.remove_value(x).no_duplicates() && !s.remove_value(x).contains(x),
{
    s.index_of_first_ensures(x);
    match s.index_of_first(x) {
        Some(i) => {
            let r = s.remove(i);
            assert forall|y: u32| r.contains(y) implies s.contains(y) by {
                let k = choose|k: int| 0 <= k < r.len() && r[k] == y;
                assert(s[k] == y || s[k + 1] == y);
            }
            assert forall|y: u32| s.contains(y) && y != x implies r.contains(y) by {
                let k = choose|k: int| 0 <= k < s.len() && s[k] == y;
                if k < i {
                    assert(r[k] == y);
                } else {
                    assert(r[k - 1] == y);
                }
            }
            if s.no_duplicates() {
                assert(r.no_duplicates());
                assert(!r.contains(x));
            }
        },
        None => {},
    }
}

/// The device-creation commands are issued exactly once for each time the
/// table goes from empty to not empty, and the device-deletion commands
/// exactly once for each time it goes from not empty to empty, whatever the
/// order of the calls. This holds of runs in which a creation that is issued
/// succeeds and nobody gives a reference back on an empty table.
pub proof fn lemma_commands_follow_transitions(s: Shared, calls: Seq<Call>)
    requires
        all_in_step(s, calls),
    ensures
        replay(s, calls).creations == s.creations + rises(s, calls),
        replay(s, calls).deletions == s.deletions + falls(s, calls),
    decreases calls.len(),
{
    if calls.len() != 0 {
        lemma_commands_follow_transitions(s, calls.drop_last());
        let before = replay(s, calls.drop_last());
        match calls.last() {
            Call::Acquire { pid, conflicting, ok } => {},
            Call::Release { pid, ok } => {
                lemma_remove_value(before.owners, pid);
            },
        }
    }
}

/// The device exists if and only if the table has an owner, after every run
/// of calls that starts so, provided that every command succeeds.
pub proof fn lemma_device_follows_owners(s: Shared, calls: Seq<Call>)
    requires
        s.device == (s.owners.len() != 0),
        all_succeed(calls),
    ensures
        replay(s, calls).device == (replay(s, calls).owners.len() != 0),
    decreases calls.len(),
{
    if calls.len() != 0 {
        assert(all_succeed(calls.drop_last())) by {
            assert forall|i: int| 0 <= i < calls.drop_last().len() implies match #[trigger] calls.drop_last()[i] {
                Call::Acquire { pid, conflicting, ok } => ok,
                Call::Release { pid, ok } => ok,
            } by {
                assert(calls.drop_last()[i] == calls[i]);
            }
        }
        lemma_device_follows_owners(s, calls.drop_last());
        let before = replay(s, calls.drop_last());
        match calls.last() {
            Call::Acquire { pid, conflicting, ok } => {},
            Call::Release { pid, ok } => {
                lemma_remove_value(before.owners, pid);
            },
        }
    }
}

/// A run of calls can be replayed in two parts.
pub proof fn lemma_replay_in_parts(s: Shared, first: Seq<Call>, second: Seq<Call>)
    ensures
        replay(s, first + second) == replay(replay(s, first), second),
    decreases second.len(),
{
    if second.len() == 0 {
        assert(first + second =~= first);
    } else {
        assert((first + second).drop_last() =~= first + second.drop_last());
        lemma_replay_in_parts(s, first, second.drop_last());
    }
}

/// After different processes have each taken a reference on a fresh VLAN, the
/// table holds them in the order of their calls, the device exists, and the
/// commands that create it have been issued once.
pub proof fn lemma_all_acquired(pids: Seq<u32>)
    requires
        valid_owners(pids),
        pids.no_duplicates(),
    ensures
        replay(fresh(), acquires(pids)) == (Shared {
            owners: pids,
            device: pids.len() != 0,
            creations: if pids.len() != 0 {
                1nat
            } else {
                0nat
            },
            deletions: 0,
        }),
    decreases pids.len(),
{
    if pids.len() != 0 {
        let rest = pids.drop_last();
        lemma_all_acquired(rest);
        assert(acquires(pids).drop_last() =~= acquires(rest));
        assert(acquires(pids).last() == Call::Acquire {
            pid: pids.last(),
            conflicting: false,
            ok: true,
        });
        assert(!rest.contains(pids.last())) by {
            if rest.contains(pids.last()) {
                let k = choose|k: int| 0 <= k < rest.len() && rest[k] == pids.last();
                assert(pids[k] == pids[pids.len() - 1]);
            }
        }
        assert(pids.last() != 0);
        assert(inserted(rest, pids.last()) =~= pids);
    } else {
        assert(pids =~= Seq::<u32>::empty());
    }
}

/// After the first `done` of the owners have given their references back, in
/// whatever order `order` lists them, the others are left, and the device
/// goes with the last of them.
proof fn lemma_releases_so_far(s: Shared, order: Seq<u32>, done: int)
    requires
        s.owners.len() != 0,
        s.owners.no_duplicates(),
        s.device,
        order.no_duplicates(),
        order.len() == s.owners.len(),
        forall|i: int| 0 <= i < order.len() ==> s.owners.contains(order[i]),
        0 <= done <= order.len(),
    ensures
        ({
            let t = replay(s, releases(order.take(done)));
            &&& t.owners.no_duplicates()
            &&& t.owners.len() == s.owners.len() - done
            &&& forall|p: u32|
                t.owners.contains(p) <==> s.owners.contains(p) && !order.take(done).contains(p)
            &&& t.creations == s.creations
            &&& t.deletions == s.deletions + if done == order.len() {
                1nat
            } else {
                0nat
            }
            &&& t.device == (done != order.len())
        }),
    decreases done,
{
    if done == 0 {
        assert(releases(order.take(0)) =~= Seq::<Call>::empty());
    } else {
        lemma_releases_so_far(s, order, done - 1);
        let earlier = order.take(done - 1);
        let now = order.take(done);
        let pid = order[done - 1];
        assert(releases(now).drop_last() =~= releases(earlier));
        let before = replay(s, releases(earlier));
        let after = replay(s, releases(now));
        assert(after == release_effect(before, pid, true));
        assert(!earlier.contains(pid)) by {
            if earlier.contains(pid) {
                let k = choose|k: int| 0 <= k < earlier.len() && earlier[k] == pid;
                assert(order[k] == order[done - 1]);
            }
        }
        lemma_remove_value(before.owners, pid);
        assert forall|p: u32| now.contains(p) <==> earlier.contains(p) || p == pid by {
            if now.contains(p) {
                let k = choose|k: int| 0 <= k < now.len() && now[k] == p;
                assert(k < done - 1 ==> earlier[k] == p);
            }
            if earlier.contains(p) {
                let k = choose|k: int| 0 <= k < earlier.len() && earlier[k] == p;
                assert(now[k] == p);
            }
            assert(now[done - 1] == pid);
        }
    }
}

/// After any number of different processes have each taken a reference on a
/// fresh VLAN and then each given it back, in whatever order, the table is
/// empty and the device is gone, and the commands that create the device and
/// those that remove it have each been issued once. This holds as long as
/// every process finds a slot and every command succeeds.
pub proof fn lemma_all_released(pids: Seq<u32>, order: Seq<u32>)
    requires
        pids.len() != 0,
        valid_owners(pids),
        pids.no_duplicates(),
        order.no_duplicates(),
        order.len() == pids.len(),
        forall|i: int| 0 <= i < order.len() ==> pids.contains(order[i]),
    ensures
        replay(fresh(), acquires(pids) + releases(order)) == (Shared {
            owners: Seq::empty(),
            device: false,
            creations: 1,
            deletions: 1,
        }),
{
    lemma_replay_in_parts(fresh(), acquires(pids), releases(order));
    lemma_all_acquired(pids);
    let held = replay(fresh(), acquires(pids));
    lemma_releases_so_far(held, order, order.len() as int);
    assert(order.take(order.len() as int) =~= order);
    let end = replay(held, releases(order));
    assert(end.owners =~= Seq::<u32>::empty());
}

/// Reading the table drops the owners that are gone: whoever is left was
/// recorded and found alive, the table stays valid, and it is unchanged where
/// everybody is alive. Where nobody is, the table reads as empty, so that the
/// next call creates the device anew, or removes it.
pub proof fn lemma_dead_owners_reaped(pids: Seq<u32>, alive: Seq<bool>)
    ensures
        forall|p: u32|
            survivors(pids, alive).contains(p) ==> exists|i: int|
                0 <= i < pids.len() && i < alive.len() && alive[i] && pids[i] == p,
        survivors(pids, alive).len() <= pids.len(),
        valid_owners(pids) ==> valid_owners(survivors(pids, alive)),
        alive.len() >= pids.len() && (forall|i: int| 0 <= i < pids.len() ==> alive[i])
            ==> survivors(pids, alive) == pids,
        (forall|i: int| 0 <= i < pids.len() && i < alive.len() ==> !alive[i]) ==> {
            &&& survivors(pids, alive).len() == 0
            &&& acquire_creates(survivors(pids, alive))
            &&& forall|pid: u32| release_deletes(survivors(pids, alive), pid)
        },
    decreases pids.len(),
{
    if pids.len() != 0 {
        let rest = pids.drop_last();
        let kept = survivors(rest, alive);
        lemma_dead_owners_reaped(rest, alive);
        let all = survivors(pids, alive);
        assert forall|p: u32| all.contains(p) implies exists|i: int|
            0 <= i < pids.len() && i < alive.len() && alive[i] && pids[i] == p by {
            let k = choose|k: int| 0 <= k < all.len() && all[k] == p;
            if k < kept.len() {
                assert(kept.contains(p));
                let i = choose|i: int|
                    0 <= i < rest.len() && i < alive.len() && alive[i] && rest[i] == p;
                assert(pids[i] == p);
            } else {
                assert(pids[pids.len() - 1] == p);
            }
        }
    }
    let all = survivors(pids, alive);
    if all.len() == 0 {
        assert forall|pid: u32| release_deletes(all, pid) by {
            lemma_remove_value(all, pid);
        }
    }
}

/// The slots that are not free are the first `n` of a list whose first `n`
/// slots are taken and whose other slots are free.
proof fn lemma_occupied_prefix(slots: Seq<u32>, n: int)
    requires
        0 <= n <= slots.len(),
        forall|i: int| 0 <= i < n ==> slots[i] != 0,
        forall|i: int| n <= i < slots.len() ==> slots[i] == 0,
    ensures
        occupied(slots) == slots.take(n),
    decreases slots.len(),
{
    if slots.len() == 0 {
    } else if n < slots.len() {
        lemma_occupied_prefix(slots.drop_last(), n);
        assert(slots.drop_last().take(n) =~= slots.take(n));
    } else {
        lemma_occupied_prefix(slots.drop_last(), n - 1);
        assert(slots.drop_last().take(n - 1).push(slots.last()) =~= slots.take(n));
    }
}

/// A table that is stored in a region reads back from it as it was.
pub proof fn lemma_region_round_trip(pids: Seq<u32>)
    requires
        valid_owners(pids),
    ensures
        region_of(pids).len() == SHM_SIZE,
        occupied(slots_of(region_of(pids))) == pids,
{
    let region = region_of(pids);
    let slots = slots_of(region);
    assert forall|i: int| 0 <= i < SLOT_COUNT implies slots[i] == if i < pids.len() {
        pids[i]
    } else {
        0u32
    } by {
        assert((4 * i) / 4 == i && (4 * i + 1) / 4 == i && (4 * i + 2) / 4 == i && (4 * i + 3) / 4
            == i);
        assert((4 * i) % 4 == 0 && (4 * i + 1) % 4 == 1 && (4 * i + 2) % 4 == 2 && (4 * i + 3) % 4
            == 3);
        assert(slots[i] == slot_at(region, i));
    }
    lemma_occupied_prefix(slots, pids.len() as int);
    assert(slots.take(pids.len() as int) =~= pids);
}

/// Taking a reference twice is taking it once, and a reference that was taken
/// is one that the table holds.
pub proof fn lemma_insert_idempotent(pids: Seq<u32>, pid: u32)
    ensures
        inserted(pids, pid).contains(pid),
        inserted(inserted(pids, pid), pid) == inserted(pids, pid),
        valid_owners(pids) && can_hold(pids, pid) ==> valid_owners(inserted(pids, pid)),
        pids.no_duplicates() ==> inserted(pids, pid).no_duplicates(),
{
    if !pids.contains(pid) {
        assert(pids.push(pid)[pids.len() as int] == pid);
    }
}

} // verus!
