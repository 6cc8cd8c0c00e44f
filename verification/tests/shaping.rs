use tsn::{
    create_vlan, delete_vlan, device_name, setup_cbs, setup_tas, vlan_create_commands, CbsChild,
    CbsConfig, Config, TasConfig, VlanError,
};

fn strings(items: &[&str]) -> Vec<String> {
    items.iter().map(|s| s.to_string()).collect()
}

fn tas() -> TasConfig {
    TasConfig {
        num_tc: 3,
        tc_map: vec![(3, 1), (0, 0), (2, 2), (1, 0)],
        queues: strings(&["1@0", "1@1", "2@2"]),
        base_time: 1000000000,
        sched_entries: strings(&["S 01 300000", "S 02 300000", "S 04 400000"]),
        txtime_delay: 500000,
    }
}

fn cbs() -> CbsConfig {
    CbsConfig {
        num_tc: 3,
        tc_map: vec![(2, 1), (0, 2), (3, 0), (1, 2)],
        queues: strings(&["1@0", "1@1", "2@2"]),
        children: vec![
            (
                1,
                CbsChild {
                    idleslope: 98688,
                    sendslope: -901312,
                    hicredit: 153,
                    locredit: -1389,
                },
            ),
            (
                2,
                CbsChild {
                    idleslope: 3648,
                    sendslope: -996352,
                    hicredit: 12,
                    locredit: -113,
                },
            ),
        ],
    }
}

#[test]
fn delete_vlan_removes_the_link_and_then_the_qdisc() {
    assert_eq!(
        delete_vlan("eth0", 10),
        strings(&["ip link del eth0.10", "tc qdisc delete dev eth0 root"])
    );
}

#[test]
fn delete_vlan_of_the_largest_id() {
    assert_eq!(
        delete_vlan("enp3s0", 65535),
        strings(&["ip link del enp3s0.65535", "tc qdisc delete dev enp3s0 root"])
    );
}

#[test]
fn device_name_joins_interface_and_id() {
    assert_eq!(device_name("eth0", 10), "eth0.10");
    assert_eq!(device_name("eth1", 0), "eth1.0");
}

#[test]
fn vlan_create_commands_add_the_link_and_bring_it_up() {
    let qos = vec![(0, 1), (3, 5), (7, 7)];
    assert_eq!(
        vlan_create_commands("eth0", 10, &qos),
        strings(&[
            "ip link add link eth0 name eth0.10 type vlan id 10 egress-qos-map 1:0 5:3 7:7",
            "ip link set up eth0.10",
        ])
    );
}

#[test]
fn vlan_create_commands_without_a_remap() {
    assert_eq!(
        vlan_create_commands("eth0", 5, &Vec::new()),
        strings(&[
            "ip link add link eth0 name eth0.5 type vlan id 5 egress-qos-map",
            "ip link set up eth0.5",
        ])
    );
}

#[test]
fn setup_tas_lists_classes_by_ascending_priority() {
    assert_eq!(
        setup_tas("eth0", tas()),
        strings(&[
            "tc qdisc replace dev eth0 parent root handle 100 taprio num_tc 3 map 0 0 2 1 \
             queues 1@0 1@1 2@2 base-time 1000000000 sched-entry S 01 300000 \
             sched-entry S 02 300000 sched-entry S 04 400000 flags 0x1 txtime-delay 500000 \
             clockid CLOCK_TAI",
            "tc qdisc replace dev eth0 parent 100:1 etf clockid CLOCK_TAI delta 500000 \
             offload skip_sock_check",
        ])
    );
}

#[test]
fn setup_tas_of_an_empty_configuration() {
    let config = TasConfig {
        num_tc: 0,
        tc_map: Vec::new(),
        queues: Vec::new(),
        base_time: 0,
        sched_entries: Vec::new(),
        txtime_delay: 0,
    };
    assert_eq!(
        setup_tas("lo", config),
        strings(&[
            "tc qdisc replace dev lo parent root handle 100 taprio num_tc 0 map queues \
             base-time 0 flags 0x1 txtime-delay 0 clockid CLOCK_TAI",
            "tc qdisc replace dev lo parent 100:1 etf clockid CLOCK_TAI delta 0 offload \
             skip_sock_check",
        ])
    );
}

#[test]
fn setup_tas_sorts_negative_priorities_first() {
    let config = TasConfig {
        num_tc: 2,
        tc_map: vec![(5, 50), (-1, 10), (2, 20)],
        queues: strings(&["1@0"]),
        base_time: -5,
        sched_entries: strings(&["S 01 1"]),
        txtime_delay: 7,
    };
    let commands = setup_tas("eth0", config);
    assert_eq!(
        commands[0],
        "tc qdisc replace dev eth0 parent root handle 100 taprio num_tc 2 map 10 20 50 queues \
         1@0 base-time -5 sched-entry S 01 1 flags 0x1 txtime-delay 7 clockid CLOCK_TAI"
    );
}

#[test]
fn setup_cbs_adds_one_shaper_for_each_class() {
    assert_eq!(
        setup_cbs("eth0", cbs()),
        strings(&[
            "tc qdisc add dev eth0 parent root handle 100 mqprio num_tc 3 map 2 2 1 0 queues \
             1@0 1@1 2@2 hw 0",
            "tc qdisc replace dev eth0 parent 100:1 handle 1111 cbs idleslope 98688 sendslope \
             -901312 hicredit 153 locredit -1389 offload 1",
            "tc qdisc replace dev eth0 parent 100:2 handle 2222 cbs idleslope 3648 sendslope \
             -996352 hicredit 12 locredit -113 offload 1",
        ])
    );
}

#[test]
fn setup_cbs_without_classes_is_the_root_alone() {
    let config = CbsConfig {
        num_tc: 1,
        tc_map: vec![(0, 0)],
        queues: Vec::new(),
        children: Vec::new(),
    };
    assert_eq!(
        setup_cbs("eth0", config),
        strings(&["tc qdisc add dev eth0 parent root handle 100 mqprio num_tc 1 map 0 queues hw 0"])
    );
}

#[test]
fn setup_cbs_handle_does_not_overflow() {
    let child = CbsChild {
        idleslope: 1,
        sendslope: 2,
        hicredit: 3,
        locredit: 4,
    };
    let config = CbsConfig {
        num_tc: 1,
        tc_map: Vec::new(),
        queues: Vec::new(),
        children: vec![(i64::MAX, child), (-3, child)],
    };
    let commands = setup_cbs("eth0", config);
    assert_eq!(
        commands[1],
        "tc qdisc replace dev eth0 parent 100:9223372036854775807 handle \
         10247166332945655921577 cbs idleslope 1 sendslope 2 hicredit 3 locredit 4 offload 1"
    );
    assert_eq!(
        commands[2],
        "tc qdisc replace dev eth0 parent 100:-3 handle -3333 cbs idleslope 1 sendslope 2 \
         hicredit 3 locredit 4 offload 1"
    );
}

#[test]
fn create_vlan_refuses_both_shapers() {
    let config = Config {
        egress_qos_map: vec![(10, vec![(0, 0)])],
        tas: Some(tas()),
        cbs: Some(cbs()),
    };
    assert_eq!(
        create_vlan(&config, "eth0", 10),
        Err(VlanError::ConfigConflictError)
    );
}

#[test]
fn create_vlan_without_shaping() {
    let config = Config {
        egress_qos_map: vec![(5, vec![(1, 1)]), (10, vec![(3, 2), (0, 4)])],
        tas: None,
        cbs: None,
    };
    assert_eq!(
        create_vlan(&config, "eth0", 10),
        Ok(strings(&[
            "ip link add link eth0 name eth0.10 type vlan id 10 egress-qos-map 2:3 4:0",
            "ip link set up eth0.10",
        ]))
    );
}

#[test]
fn create_vlan_without_a_remap_for_the_vlan() {
    let config = Config {
        egress_qos_map: vec![(5, vec![(1, 1)])],
        tas: None,
        cbs: None,
    };
    assert_eq!(
        create_vlan(&config, "eth0", 10),
        Ok(strings(&[
            "ip link add link eth0 name eth0.10 type vlan id 10 egress-qos-map",
            "ip link set up eth0.10",
        ]))
    );
}

#[test]
fn create_vlan_with_time_aware_shaping() {
    let config = Config {
        egress_qos_map: vec![(10, vec![(3, 3)])],
        tas: Some(tas()),
        cbs: None,
    };
    let commands = create_vlan(&config, "eth0", 10).unwrap();
    let mut expected = strings(&[
        "ip link add link eth0 name eth0.10 type vlan id 10 egress-qos-map 3:3",
        "ip link set up eth0.10",
    ]);
    expected.extend(setup_tas("eth0", tas()));
    assert_eq!(commands.len(), 4);
    assert_eq!(commands, expected);
}

#[test]
fn create_vlan_with_credit_based_shaping() {
    let config = Config {
        egress_qos_map: vec![(10, vec![(3, 3)])],
        tas: None,
        cbs: Some(cbs()),
    };
    let commands = create_vlan(&config, "eth0", 10).unwrap();
    let mut expected = strings(&[
        "ip link add link eth0 name eth0.10 type vlan id 10 egress-qos-map 3:3",
        "ip link set up eth0.10",
    ]);
    expected.extend(setup_cbs("eth0", cbs()));
    assert_eq!(commands.len(), 5);
    assert_eq!(commands, expected);
}
