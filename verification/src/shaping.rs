//! The `ip` and `tc` command lines that build a VLAN device, shape its
//! traffic as a configuration says, and remove it again.
//!
//! Nothing here runs a command. Every function returns the lines in the order
//! in which they have to be run; the caller runs them and stops at the first
//! one that fails.

use itertools::Itertools;
use vstd::prelude::*;
use vstd::relations::sorted_by;
use vstd::seq_lib::lemma_sorted_unique;
use vstd::string::StringExecFns;
use crate::error::VlanError;
use crate::text::{decimal, framed, lines, push_decimal, push_framed};

verus! {

/// The handle of the root queueing discipline that both shapers install.
pub const ROOT_HANDLE: i64 = 100;

/// What a traffic class's handle is a multiple of.
pub const CHILD_HANDLE_UNIT: i64 = 1111;

/// The credit-based shaper's parameters for one traffic class.
#[derive(Clone, Copy, Debug)]
pub struct CbsChild {
    pub idleslope: i64,
    pub sendslope: i64,
    pub hicredit: i64,
    pub locredit: i64,
}

/// Time-aware shaping (802.1Qbv) of one interface.
///
/// `tc_map` lists pairs of a priority and the traffic class it is sent in.
#[derive(Clone, Debug)]
pub struct TasConfig {
    pub num_tc: i64,
    pub tc_map: Vec<(i64, i64)>,
    pub queues: Vec<String>,
    pub base_time: i64,
    pub sched_entries: Vec<String>,
    pub txtime_delay: i64,
}

/// Credit-based shaping (802.1Qav) of one interface.
///
/// `tc_map` lists pairs of a priority and the traffic class it is sent in,
/// `children` pairs of a traffic class and its shaper parameters.
#[derive(Clone, Debug)]
pub struct CbsConfig {
    pub num_tc: i64,
    pub tc_map: Vec<(i64, i64)>,
    pub queues: Vec<String>,
    pub children: Vec<(i64, CbsChild)>,
}

/// The configuration of one interface.
///
/// `egress_qos_map` lists, for each VLAN id, pairs of a priority and the
/// priority code point that frames of that priority are tagged with.
#[derive(Clone, Debug)]
pub struct Config {
    pub egress_qos_map: Vec<(i64, Vec<(i64, i64)>)>,
    pub tas: Option<TasConfig>,
    pub cbs: Option<CbsConfig>,
}

/// The order in which priorities are listed: ascending.
pub open spec fn key_order() -> spec_fn(i64, i64) -> bool {
    |a: i64, b: i64| a <= b
}

/// The first components of a list of pairs.
pub open spec fn keys_of(map: Seq<(i64, i64)>) -> Seq<i64> {
    Seq::new(map.len(), |i: int| map[i].0)
}

/// The second component of the first pair whose first component is `key`, or
/// zero where there is none.
pub open spec fn value_of(map: Seq<(i64, i64)>, key: i64) -> i64
    decreases map.len(),
{
    if map.len() == 0 {
        0
    } else if map[0].0 == key {
        map[0].1
    } else {
        value_of(map.drop_first(), key)
    }
}

/// For each key in turn, a space and the value that `map` gives it.
pub open spec fn values_text(map: Seq<(i64, i64)>, keys: Seq<i64>) -> Seq<char>
    decreases keys.len(),
{
    if keys.len() == 0 {
        Seq::empty()
    } else {
        values_text(map, keys.drop_last()) + " "@ + decimal(value_of(map, keys.last()) as int)
    }
}

/// The argument of `map`: the traffic class of every priority, by ascending
/// priority, each preceded by a space.
pub open spec fn priomap_text(tc_map: Seq<(i64, i64)>) -> Seq<char> {
    values_text(tc_map, keys_of(tc_map).sort_by(key_order()))
}

/// The name of the VLAN device, which is also that of its shared-memory
/// segment: the interface, a dot, the VLAN id.
pub open spec fn vlan_name(ifname: Seq<char>, vlan_id: u16) -> Seq<char> {
    ifname + "."@ + decimal(vlan_id as int)
}

/// For each pair of a priority and a code point in turn: a space, the code
/// point, a colon, the priority.
pub open spec fn qos_text(pairs: Seq<(i64, i64)>) -> Seq<char>
    decreases pairs.len(),
{
    if pairs.len() == 0 {
        Seq::empty()
    } else {
        qos_text(pairs.drop_last()) + " "@ + decimal(pairs.last().1 as int) + ":"@ + decimal(
            pairs.last().0 as int,
        )
    }
}

/// The line that adds the VLAN link.
pub open spec fn link_add_line(ifname: Seq<char>, vlan_id: u16, qos: Seq<(i64, i64)>) -> Seq<
    char,
> {
    "ip link add link "@ + ifname + " name "@ + vlan_name(ifname, vlan_id) + " type vlan id "@
        + decimal(vlan_id as int) + " egress-qos-map"@ + qos_text(qos)
}

/// The line that brings the VLAN link up.
pub open spec fn link_up_line(ifname: Seq<char>, vlan_id: u16) -> Seq<char> {
    "ip link set up "@ + vlan_name(ifname, vlan_id)
}

/// The line that removes the VLAN link.
pub open spec fn link_del_line(ifname: Seq<char>, vlan_id: u16) -> Seq<char> {
    "ip link del "@ + vlan_name(ifname, vlan_id)
}

/// The line that removes the root queueing discipline of the interface.
pub open spec fn qdisc_del_line(ifname: Seq<char>) -> Seq<char> {
    "tc qdisc delete dev "@ + ifname + " root"@
}

/// The line that installs the time-aware root discipline.
pub open spec fn taprio_line(ifname: Seq<char>, config: TasConfig) -> Seq<char> {
    "tc qdisc replace dev "@ + ifname + " parent root handle "@ + decimal(ROOT_HANDLE as int)
        + " taprio num_tc "@ + decimal(config.num_tc as int) + " map"@ + priomap_text(
        config.tc_map@,
    ) + " queues"@ + framed(lines(config.queues@), " "@, ""@) + " base-time "@ + decimal(
        config.base_time as int,
    ) + framed(lines(config.sched_entries@), " sched-entry "@, ""@)
        + " flags 0x1 txtime-delay "@ + decimal(config.txtime_delay as int)
        + " clockid CLOCK_TAI"@
}

/// The line that installs the earliest-txtime-first discipline below the
/// time-aware root.
pub open spec fn etf_line(ifname: Seq<char>, config: TasConfig) -> Seq<char> {
    "tc qdisc replace dev "@ + ifname + " parent "@ + decimal(ROOT_HANDLE as int)
        + ":1 etf clockid CLOCK_TAI delta "@ + decimal(config.txtime_delay as int)
        + " offload skip_sock_check"@
}

/// The lines that set up time-aware shaping, in the order to run them.
pub open spec fn tas_lines(ifname: Seq<char>, config: TasConfig) -> Seq<Seq<char>> {
    seq![taprio_line(ifname, config), etf_line(ifname, config)]
}

/// The line that installs the multi-queue priority root discipline.
pub open spec fn mqprio_line(ifname: Seq<char>, config: CbsConfig) -> Seq<char> {
    "tc qdisc add dev "@ + ifname + " parent root handle "@ + decimal(ROOT_HANDLE as int)
        + " mqprio num_tc "@ + decimal(config.num_tc as int) + " map"@ + priomap_text(
        config.tc_map@,
    ) + " queues "@ + framed(lines(config.queues@), ""@, " "@) + "hw 0"@
}

/// The line that installs the credit-based shaper of traffic class `tc`.
pub open spec fn cbs_child_line(ifname: Seq<char>, tc: i64, child: CbsChild) -> Seq<char> {
    "tc qdisc replace dev "@ + ifname + " parent "@ + decimal(ROOT_HANDLE as int) + ":"@
        + decimal(tc as int) + " handle "@ + decimal(tc * CHILD_HANDLE_UNIT)
        + " cbs idleslope "@ + decimal(child.idleslope as int) + " sendslope "@ + decimal(
        child.sendslope as int,
    ) + " hicredit "@ + decimal(child.hicredit as int) + " locredit "@ + decimal(
        child.locredit as int,
    ) + " offload 1"@
}

/// The lines that set up credit-based shaping, in the order to run them: the
/// root discipline, then one line for each traffic class.
pub open spec fn cbs_lines(ifname: Seq<char>, config: CbsConfig) -> Seq<Seq<char>> {
    seq![mqprio_line(ifname, config)] + Seq::new(
        config.children@.len(),
        |i: int| cbs_child_line(ifname, config.children@[i].0, config.children@[i].1),
    )
}

/// The lines that remove the VLAN device and the shaping of its interface.
pub open spec fn delete_lines(ifname: Seq<char>, vlan_id: u16) -> Seq<Seq<char>> {
    seq![link_del_line(ifname, vlan_id), qdisc_del_line(ifname)]
}

/// The lines that create the VLAN device and bring it up.
pub open spec fn link_lines(ifname: Seq<char>, vlan_id: u16, qos: Seq<(i64, i64)>) -> Seq<
    Seq<char>,
> {
    seq![link_add_line(ifname, vlan_id, qos), link_up_line(ifname, vlan_id)]
}

/// The priority remap that `config` holds for `vlan_id`: that of the first
/// entry for it, and none where there is no entry.
pub open spec fn qos_of(map: Seq<(i64, Vec<(i64, i64)>)>, vlan_id: u16) -> Seq<(i64, i64)>
    decreases map.len(),
{
    if map.len() == 0 {
        Seq::empty()
    } else if map[0].0 == vlan_id as i64 {
        map[0].1@
    } else {
        qos_of(map.drop_first(), vlan_id)
    }
}

impl Config {
    /// Whether the configuration asks for both shapers at once.
    pub open spec fn conflicting(self) -> bool {
        self.tas is Some && self.cbs is Some
    }

    /// The lines that shape the interface: those of the shaper that is
    /// configured, and none where there is none.
    pub open spec fn shaping_lines(self, ifname: Seq<char>) -> Seq<Seq<char>> {
        (match self.tas {
            Some(tas) => tas_lines(ifname, tas),
            None => Seq::empty(),
        }) + (match self.cbs {
            Some(cbs) => cbs_lines(ifname, cbs),
            None => Seq::empty(),
        })
    }

    /// The lines that create the VLAN device `vlan_id` on `ifname` and shape
    /// the interface, in the order to run them.
    pub open spec fn create_lines(self, ifname: Seq<char>, vlan_id: u16) -> Seq<Seq<char>> {
        link_lines(ifname, vlan_id, qos_of(self.egress_qos_map@, vlan_id)) + self.shaping_lines(
            ifname,
        )
    }
}

/// `Itertools::sorted` on a list of priorities. The contract claims what its
/// documentation promises: the result holds the items of the argument, each as
/// often as the argument does, in ascending order.
#[verifier::external_body]
fn sorted_keys(keys: Vec<i64>) -> (sorted: Vec<i64>)
    ensures
        sorted_by(sorted@, key_order()),
        sorted@.to_multiset() == keys@.to_multiset(),
{
    keys.into_iter().sorted().collect()
}

/// The priorities of `map` in ascending order.
fn ascending_keys(map: &Vec<(i64, i64)>) -> (keys: Vec<i64>)
    ensures
        keys@ == keys_of(map@).sort_by(key_order()),
{
    let n = map.len();
    let mut keys: Vec<i64> = Vec::new();
    let mut i: usize = 0;
    while i < n
        invariant
            n == map@.len(),
            0 <= i <= n,
            keys@ == keys_of(map@).take(i as int),
        decreases n - i,
    {
        keys.push(map[i].0);
        i += 1;
    }
    assert(keys@ =~= keys_of(map@));
    let sorted = sorted_keys(keys);
    proof {
        keys_of(map@).lemma_sort_by_ensures(key_order());
        lemma_sorted_unique(sorted@, keys_of(map@).sort_by(key_order()), key_order());
    }
    sorted
}

/// The value that `map` gives `key`.
fn lookup(map: &Vec<(i64, i64)>, key: i64) -> (value: i64)
    ensures
        value == value_of(map@, key),
{
    let n = map.len();
    let mut i: usize = 0;
    assert(map@.skip(0) =~= map@);
    while i < n
        invariant
            n == map@.len(),
            0 <= i <= n,
            value_of(map@, key) == value_of(map@.skip(i as int), key),
        decreases n - i,
    {
        if map[i].0 == key {
            return map[i].1;
        }
        assert(map@.skip(i as int).drop_first() =~= map@.skip(i as int + 1));
        i += 1;
    }
    0
}

/// Appends the argument of `map` for `tc_map`.
fn push_priomap(out: &mut String, tc_map: &Vec<(i64, i64)>)
    ensures
        final(out)@ == old(out)@ + priomap_text(tc_map@),
{
    let keys = ascending_keys(tc_map);
    let n = keys.len();
    let mut i: usize = 0;
    while i < n
        invariant
            n == keys@.len(),
            0 <= i <= n,
            out@ == old(out)@ + values_text(tc_map@, keys@.take(i as int)),
        decreases n - i,
    {
        let value = lookup(tc_map, keys[i]);
        out.append(" ");
        push_decimal(out, value as i128);
        assert(keys@.take(i as int + 1).drop_last() =~= keys@.take(i as int));
        i += 1;
    }
    assert(keys@.take(n as int) =~= keys@);
}

/// Appends the name of the VLAN device.
fn push_vlan_name(out: &mut String, ifname: &str, vlan_id: u16)
    ensures
        final(out)@ == old(out)@ + vlan_name(ifname@, vlan_id),
{
    out.append(ifname);
    out.append(".");
    push_decimal(out, vlan_id as i128);
}

/// The name of the VLAN device `vlan_id` of `ifname`, which is also that of
/// its shared-memory segment.
pub fn device_name(ifname: &str, vlan_id: u16) -> (name: String)
    ensures
        name@ == vlan_name(ifname@, vlan_id),
{
    let mut name = String::new();
    push_vlan_name(&mut name, ifname, vlan_id);
    name
}

/// Appends the remap pairs of `egress-qos-map`.
fn push_qos(out: &mut String, pairs: &Vec<(i64, i64)>)
    ensures
        final(out)@ == old(out)@ + qos_text(pairs@),
{
    let n = pairs.len();
    let mut i: usize = 0;
    while i < n
        invariant
            n == pairs@.len(),
            0 <= i <= n,
            out@ == old(out)@ + qos_text(pairs@.take(i as int)),
        decreases n - i,
    {
        let (priority, code_point) = pairs[i];
        out.append(" ");
        push_decimal(out, code_point as i128);
        out.append(":");
        push_decimal(out, priority as i128);
        assert(pairs@.take(i as int + 1).drop_last() =~= pairs@.take(i as int));
        i += 1;
    }
    assert(pairs@.take(n as int) =~= pairs@);
}

/// The two lines that create the VLAN device `vlan_id` on `ifname`, tagging
/// frames as `egress_qos_map` says, and bring it up.
pub fn vlan_create_commands(ifname: &str, vlan_id: u16, egress_qos_map: &Vec<(i64, i64)>) -> (commands:
    Vec<String>)
    ensures
        lines(commands@) == link_lines(ifname@, vlan_id, egress_qos_map@),
{
    let mut add = String::from_str("ip link add link ");
    add.append(ifname);
    add.append(" name ");
    push_vlan_name(&mut add, ifname, vlan_id);
    add.append(" type vlan id ");
    push_decimal(&mut add, vlan_id as i128);
    add.append(" egress-qos-map");
    push_qos(&mut add, egress_qos_map);
    let mut up = String::from_str("ip link set up ");
    push_vlan_name(&mut up, ifname, vlan_id);
    let mut commands: Vec<String> = Vec::new();
    commands.push(add);
    commands.push(up);
    commands
}

/// The two lines that remove the VLAN device `vlanid` of `ifname` and then the
/// shaping of `ifname`.
pub fn delete_vlan(ifname: &str, vlanid: u16) -> (commands: Vec<String>)
    ensures
        lines(commands@) == delete_lines(ifname@, vlanid),
{
    let mut del = String::from_str("ip link del ");
    push_vlan_name(&mut del, ifname, vlanid);
    let mut qdisc = String::from_str("tc qdisc delete dev ");
    qdisc.append(ifname);
    qdisc.append(" root");
    let mut commands: Vec<String> = Vec::new();
    commands.push(del);
    commands.push(qdisc);
    commands
}

/// The lines that set up time-aware shaping of `ifname`.
fn tas_commands(ifname: &str, config: &TasConfig) -> (commands: Vec<String>)
    ensures
        lines(commands@) == tas_lines(ifname@, *config),
{
    let mut taprio = String::from_str("tc qdisc replace dev ");
    taprio.append(ifname);
    taprio.append(" parent root handle ");
    push_decimal(&mut taprio, ROOT_HANDLE as i128);
    taprio.append(" taprio num_tc ");
    push_decimal(&mut taprio, config.num_tc as i128);
    taprio.append(" map");
    push_priomap(&mut taprio, &config.tc_map);
    taprio.append(" queues");
    push_framed(&mut taprio, &config.queues, " ", "");
    taprio.append(" base-time ");
    push_decimal(&mut taprio, config.base_time as i128);
    push_framed(&mut taprio, &config.sched_entries, " sched-entry ", "");
    taprio.append(" flags 0x1 txtime-delay ");
    push_decimal(&mut taprio, config.txtime_delay as i128);
    taprio.append(" clockid CLOCK_TAI");
    let mut etf = String::from_str("tc qdisc replace dev ");
    etf.append(ifname);
    etf.append(" parent ");
    push_decimal(&mut etf, ROOT_HANDLE as i128);
    etf.append(":1 etf clockid CLOCK_TAI delta ");
    push_decimal(&mut etf, config.txtime_delay as i128);
    etf.append(" offload skip_sock_check");
    let mut commands: Vec<String> = Vec::new();
    commands.push(taprio);
    commands.push(etf);
    commands
}

/// The line that installs the credit-based shaper of traffic class `tc`.
fn cbs_child_command(ifname: &str, tc: i64, child: &CbsChild) -> (command: String)
    ensures
        command@ == cbs_child_line(ifname@, tc, *child),
{
    let mut command = String::from_str("tc qdisc replace dev ");
    command.append(ifname);
    command.append(" parent ");
    push_decimal(&mut command, ROOT_HANDLE as i128);
    command.append(":");
    push_decimal(&mut command, tc as i128);
    command.append(" handle ");
    push_decimal(&mut command, tc as i128 * CHILD_HANDLE_UNIT as i128);
    command.append(" cbs idleslope ");
    push_decimal(&mut command, child.idleslope as i128);
    command.append(" sendslope ");
    push_decimal(&mut command, child.sendslope as i128);
    command.append(" hicredit ");
    push_decimal(&mut command, child.hicredit as i128);
    command.append(" locredit ");
    push_decimal(&mut command, child.locredit as i128);
    command.append(" offload 1");
    command
}

/// The lines that set up credit-based shaping of `ifname`.
fn cbs_commands(ifname: &str, config: &CbsConfig) -> (commands: Vec<String>)
    ensures
        lines(commands@) == cbs_lines(ifname@, *config),
{
    let mut mqprio = String::from_str("tc qdisc add dev ");
    mqprio.append(ifname);
    mqprio.append(" parent root handle ");
    push_decimal(&mut mqprio, ROOT_HANDLE as i128);
    mqprio.append(" mqprio num_tc ");
    push_decimal(&mut mqprio, config.num_tc as i128);
    mqprio.append(" map");
    push_priomap(&mut mqprio, &config.tc_map);
    mqprio.append(" queues ");
    push_framed(&mut mqprio, &config.queues, "", " ");
    mqprio.append("hw 0");
    let mut commands: Vec<String> = Vec::new();
    commands.push(mqprio);
    let n = config.children.len();
    let mut i: usize = 0;
    while i < n
        invariant
            n == config.children@.len(),
            0 <= i <= n,
            commands@.len() == i + 1,
            lines(commands@) == cbs_lines(ifname@, *config).take(i as int + 1),
        decreases n - i,
    {
        let child = cbs_child_command(ifname, config.children[i].0, &config.children[i].1);
        commands.push(child);
        i += 1;
    }
    commands
}

/// The two lines that set up time-aware shaping of `ifname`: the time-aware
/// root discipline, then the earliest-txtime-first discipline below it.
pub fn setup_tas(ifname: &str, config: TasConfig) -> (commands: Vec<String>)
    ensures
        lines(commands@) == tas_lines(ifname@, config),
{
    tas_commands(ifname, &config)
}

/// The lines that set up credit-based shaping of `ifname`: the multi-queue
/// root discipline, then one shaper line for each traffic class of
/// `config.children`, in their order.
pub fn setup_cbs(ifname: &str, config: CbsConfig) -> (commands: Vec<String>)
    ensures
        lines(commands@) == cbs_lines(ifname@, config),
{
    cbs_commands(ifname, &config)
}

/// The priority remap that `map` holds for `vlan_id`.
fn remap_of(map: &Vec<(i64, Vec<(i64, i64)>)>, vlan_id: u16) -> (found: Option<&Vec<(i64, i64)>>)
    ensures
        match found {
            Some(pairs) => pairs@ == qos_of(map@, vlan_id),
            None => qos_of(map@, vlan_id) == Seq::<(i64, i64)>::empty(),
        },
{
    let n = map.len();
    let mut i: usize = 0;
    assert(map@.skip(0) =~= map@);
    while i < n
        invariant
            n == map@.len(),
            0 <= i <= n,
            qos_of(map@, vlan_id) == qos_of(map@.skip(i as int), vlan_id),
        decreases n - i,
    {
        if map[i].0 == vlan_id as i64 {
            return Some(&map[i].1);
        }
        assert(map@.skip(i as int).drop_first() =~= map@.skip(i as int + 1));
        i += 1;
    }
    None
}

/// Appends the items of `more` to `commands`.
fn extend(commands: &mut Vec<String>, more: Vec<String>)
    ensures
        lines(final(commands)@) == lines(old(commands)@) + lines(more@),
{
    let mut more = more;
    commands.append(&mut more);
}

/// The lines that create the VLAN device `vlan_id` on `ifname` and shape the
/// interface as `config` says, in the order to run them: add the link, bring
/// it up, then the lines of the configured shaper. A configuration with both
/// shapers is refused.
pub fn create_vlan(config: &Config, ifname: &str, vlan_id: u16) -> (result: Result<
    Vec<String>,
    VlanError,
>)
    ensures
        config.conflicting() ==> result == Err::<Vec<String>, VlanError>(
            VlanError::ConfigConflictError,
        ),
        !config.conflicting() ==> result is Ok && lines(result->Ok_0@) == config.create_lines(
            ifname@,
            vlan_id,
        ),
{
    if config.tas.is_some() && config.cbs.is_some() {
        return Err(VlanError::ConfigConflictError);
    }
    let none: Vec<(i64, i64)> = Vec::new();
    let mut commands = match remap_of(&config.egress_qos_map, vlan_id) {
        Some(pairs) => vlan_create_commands(ifname, vlan_id, pairs),
        None => vlan_create_commands(ifname, vlan_id, &none),
    };
    match &config.tas {
        Some(tas) => {
            extend(&mut commands, tas_commands(ifname, tas));
        },
        None => {},
    }
    match &config.cbs {
        Some(cbs) => {
            extend(&mut commands, cbs_commands(ifname, cbs));
        },
        None => {},
    }
    Ok(commands)
}

} // verus!
