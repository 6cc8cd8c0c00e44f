use tsn::{
    find_timestamp, receive_timestamp, recv, recv_msg, send, sock_close, sock_open,
    sock_set_timeout, timeout_value, timespecff_diff, PerfOpField, TimeSpec, TimeVal, TsnSocket,
    VlanError, TIMESTAMP_FLAGS,
};

fn socket() -> TsnSocket {
    TsnSocket {
        fd: 5,
        ifname: String::from("eth0"),
        vlanid: 10,
    }
}

fn message(level: i32, kind: i32, payload: &[u8]) -> Vec<u8> {
    let mut bytes = Vec::new();
    bytes.extend_from_slice(&((16 + payload.len()) as u64).to_le_bytes());
    bytes.extend_from_slice(&level.to_le_bytes());
    bytes.extend_from_slice(&kind.to_le_bytes());
    bytes.extend_from_slice(payload);
    while bytes.len() % 8 != 0 {
        bytes.push(0xaa);
    }
    bytes
}

fn stamp(sec: i64, nsec: i64) -> Vec<u8> {
    let mut payload = Vec::new();
    payload.extend_from_slice(&sec.to_le_bytes());
    payload.extend_from_slice(&nsec.to_le_bytes());
    payload
}

const FALLBACK: TimeSpec = TimeSpec {
    tv_sec: 1_700_000_000,
    tv_nsec: 5,
};

#[test]
fn open_chain_ends_with_the_socket() {
    let request = sock_open("eth0", 10, 3, 0x1337);
    assert_eq!(request.ifname, "eth0");
    assert_eq!(request.vlanid, 10);
    assert_eq!(request.priority, 3);
    assert_eq!(request.ethertype, 0x1337);
    let call = request.acquired(Ok(())).unwrap();
    assert_eq!(call.protocol, 0x1337u16.to_be());
    let call = call.returned(7, 0).unwrap();
    assert_eq!(call.fd, 7);
    assert_eq!(call.request.priority, 3);
    let call = call.returned(0, 0).unwrap();
    assert_eq!(call.fd, 7);
    assert_eq!(call.name, "eth0.10");
    let call = call.returned(4, 0).unwrap();
    assert_eq!(call.fd, 7);
    assert_eq!(call.ifindex, 4);
    let sock = call.returned(0, 0).unwrap();
    assert_eq!(sock.fd, 7);
    assert_eq!(sock.ifname, "eth0");
    assert_eq!(sock.vlanid, 10);
}

#[test]
fn protocol_is_the_ethertype_in_network_order() {
    let call = sock_open("eth0", 10, 3, 0x0003).acquired(Ok(())).unwrap();
    assert_eq!(call.protocol.to_ne_bytes(), [0x00, 0x03]);
    let call = sock_open("eth0", 10, 3, 0x88f7).acquired(Ok(())).unwrap();
    assert_eq!(call.protocol.to_ne_bytes(), [0x88, 0xf7]);
}

#[test]
fn refused_reference_opens_nothing() {
    let next = sock_open("eth0", 10, 3, 0x1337).acquired(Err(VlanError::ConfigConflictError));
    assert_eq!(next.err(), Some(VlanError::ConfigConflictError));
    let next = sock_open("eth0", 10, 3, 0x1337)
        .acquired(Err(VlanError::DeviceCommandError { exit_code: 2 }));
    assert_eq!(
        next.err(),
        Some(VlanError::DeviceCommandError { exit_code: 2 })
    );
}

#[test]
fn failed_socket_gives_the_reference_back() {
    let call = sock_open("eth0", 10, 3, 0x1337).acquired(Ok(())).unwrap();
    let abandon = call.returned(-1, 1).unwrap_err();
    assert_eq!(abandon.close, None);
    assert_eq!(abandon.error, VlanError::SocketError { errno: 1 });
}

#[test]
fn failed_priority_closes_and_gives_back() {
    let call = sock_open("eth0", 10, 3, 0x1337).acquired(Ok(())).unwrap();
    let call = call.returned(0, 0).unwrap();
    let abandon = call.returned(-1, 22).unwrap_err();
    assert_eq!(abandon.close, Some(0));
    assert_eq!(abandon.error, VlanError::SocketError { errno: 22 });
}

#[test]
fn missing_device_closes_and_gives_back() {
    let call = sock_open("eth0", 10, 3, 0x1337).acquired(Ok(())).unwrap();
    let call = call.returned(9, 0).unwrap().returned(0, 0).unwrap();
    let abandon = call.returned(0, 19).unwrap_err();
    assert_eq!(abandon.close, Some(9));
    assert_eq!(abandon.error, VlanError::SocketError { errno: 19 });
}

#[test]
fn failed_bind_closes_and_gives_back() {
    let call = sock_open("eth0", 10, 3, 0x1337).acquired(Ok(())).unwrap();
    let call = call
        .returned(9, 0)
        .unwrap()
        .returned(0, 0)
        .unwrap()
        .returned(12, 0)
        .unwrap();
    let abandon = call.returned(-1, 98).unwrap_err();
    assert_eq!(abandon.close, Some(9));
    assert_eq!(abandon.error, VlanError::SocketError { errno: 98 });
}

#[test]
fn send_translates_what_the_call_returned() {
    let sock = socket();
    assert_eq!(sock.send(64, 0), Ok(64));
    assert_eq!(sock.send(0, 0), Ok(0));
    assert_eq!(sock.send(-1, 11), Err(VlanError::SocketError { errno: 11 }));
    assert_eq!(send(&sock, 1514, 3), Ok(1514));
    assert_eq!(send(&sock, -1, 3), Err(VlanError::SocketError { errno: 3 }));
}

#[test]
fn recv_translates_what_the_call_returned() {
    let sock = socket();
    assert_eq!(sock.recv(1400, 0), Ok(1400));
    assert_eq!(sock.recv(-1, 11), Err(VlanError::SocketError { errno: 11 }));
    assert_eq!(recv(&sock, 0, 0), Ok(0));
    assert_eq!(sock.recv_msg(60, 0), Ok(60));
    assert_eq!(sock.recv_msg(-1, 4), Err(VlanError::SocketError { errno: 4 }));
    assert_eq!(recv_msg(&sock, isize::MIN, 9), Err(VlanError::SocketError { errno: 9 }));
}

#[test]
fn set_timeout_translates_what_the_call_returned() {
    let mut sock = socket();
    assert_eq!(sock.set_timeout(0, 0), Ok(()));
    assert_eq!(sock.set_timeout(-1, 33), Err(VlanError::SocketError { errno: 33 }));
    assert_eq!(sock_set_timeout(&mut sock, 0, 5), Ok(()));
    assert_eq!(sock.fd, 5);
    assert_eq!(sock.ifname, "eth0");
    assert_eq!(sock.vlanid, 10);
}

#[test]
fn timeout_value_holds_seconds_and_microseconds() {
    assert_eq!(timeout_value(1, 0), TimeVal { tv_sec: 1, tv_usec: 0 });
    assert_eq!(
        timeout_value(0, 999_999),
        TimeVal {
            tv_sec: 0,
            tv_usec: 999_999
        }
    );
    assert_eq!(
        timeout_value(u64::MAX, 1),
        TimeVal {
            tv_sec: i64::MAX,
            tv_usec: 1
        }
    );
    assert_eq!(
        timeout_value(i64::MAX as u64, u32::MAX),
        TimeVal {
            tv_sec: i64::MAX,
            tv_usec: u32::MAX as i64
        }
    );
}

#[test]
fn close_surfaces_the_release_and_drops_the_descriptor() {
    let mut sock = socket();
    assert_eq!(sock.close(Ok(())), Ok(()));
    assert_eq!(sock.fd, -1);
    assert_eq!(sock.ifname, "eth0");
    assert_eq!(sock.vlanid, 10);
    let mut sock = socket();
    let failed = Err(VlanError::DeviceCommandError { exit_code: 1 });
    assert_eq!(sock_close(&mut sock, failed), failed);
    assert_eq!(sock.fd, -1);
}

#[test]
fn timestamp_flags_are_raw_hardware_and_software() {
    assert_eq!(TIMESTAMP_FLAGS, (1 << 6) | (1 << 4));
}

#[test]
fn enable_timestamps_gives_the_right_to_extract() {
    let sock = socket();
    assert_eq!(
        sock.enable_timestamps(-1, 92).err(),
        Some(VlanError::SocketError { errno: 92 })
    );
    let right = sock.enable_timestamps(0, 0).unwrap();
    let control = message(1, 35, &stamp(12, 34));
    assert_eq!(
        right.extract(&control, FALLBACK),
        TimeSpec {
            tv_sec: 12,
            tv_nsec: 34
        }
    );
    assert_eq!(right.extract(&[], FALLBACK), FALLBACK);
}

#[test]
fn timestamp_of_the_only_message() {
    let control = message(1, 35, &stamp(1_699_999_999, 123_456_789));
    assert_eq!(control.len(), 32);
    assert_eq!(
        find_timestamp(&control),
        Some(TimeSpec {
            tv_sec: 1_699_999_999,
            tv_nsec: 123_456_789
        })
    );
}

#[test]
fn timestamp_after_other_messages() {
    let mut control = message(1, 29, &[1, 2, 3, 4]);
    assert_eq!(control.len(), 24);
    control.extend(message(263, 35, &stamp(1, 1)));
    control.extend(message(1, 35, &stamp(77, 88)));
    control.extend(message(1, 35, &stamp(99, 11)));
    assert_eq!(
        receive_timestamp(&control, FALLBACK),
        TimeSpec {
            tv_sec: 77,
            tv_nsec: 88
        }
    );
}

#[test]
fn timestamp_fields_are_signed() {
    let control = message(1, 35, &stamp(-2, -1));
    assert_eq!(
        find_timestamp(&control),
        Some(TimeSpec {
            tv_sec: -2,
            tv_nsec: -1
        })
    );
    let control = message(1, 35, &stamp(i64::MIN, i64::MAX));
    assert_eq!(
        find_timestamp(&control),
        Some(TimeSpec {
            tv_sec: i64::MIN,
            tv_nsec: i64::MAX
        })
    );
}

#[test]
fn no_timestamp_falls_back() {
    assert_eq!(receive_timestamp(&[], FALLBACK), FALLBACK);
    assert_eq!(find_timestamp(&[]), None);
    let control = message(1, 29, &[0; 8]);
    assert_eq!(receive_timestamp(&control, FALLBACK), FALLBACK);
    let control = message(0, 35, &stamp(5, 5));
    assert_eq!(receive_timestamp(&control, FALLBACK), FALLBACK);
    let control = message(-1, 35, &stamp(5, 5));
    assert_eq!(find_timestamp(&control), None);
    let control = message(1, 37, &stamp(5, 5));
    assert_eq!(find_timestamp(&control), None);
}

#[test]
fn broken_buffers_fall_back() {
    assert_eq!(find_timestamp(&[0u8; 15]), None);
    assert_eq!(find_timestamp(&[0u8; 64]), None);
    let mut control = message(1, 35, &stamp(5, 5));
    control.truncate(31);
    assert_eq!(find_timestamp(&control), None);
    let control = message(1, 35, &[0u8; 8]);
    assert_eq!(find_timestamp(&control), None);
    let mut control = message(1, 29, &[0u8; 3]);
    control.truncate(19);
    assert_eq!(find_timestamp(&control), None);
    let mut control = vec![0xffu8; 8];
    control.extend_from_slice(&1i32.to_le_bytes());
    control.extend_from_slice(&35i32.to_le_bytes());
    control.extend(stamp(1, 1));
    assert_eq!(receive_timestamp(&control, FALLBACK), FALLBACK);
}

#[test]
fn short_timestamp_message_is_passed_over() {
    let mut control = message(1, 35, &[0u8; 8]);
    control.extend(message(1, 35, &stamp(3, 4)));
    assert_eq!(
        find_timestamp(&control),
        Some(TimeSpec {
            tv_sec: 3,
            tv_nsec: 4
        })
    );
}

#[test]
fn diff_is_the_time_between() {
    let start = TimeSpec {
        tv_sec: 1,
        tv_nsec: 900_000_000,
    };
    let stop = TimeSpec {
        tv_sec: 3,
        tv_nsec: 100_000_000,
    };
    let span = TimeSpec {
        tv_sec: 1,
        tv_nsec: 200_000_000,
    };
    assert_eq!(timespecff_diff(&start, &stop), Some(span));
    assert_eq!(timespecff_diff(&stop, &start), Some(span));
    assert_eq!(
        timespecff_diff(&start, &start),
        Some(TimeSpec {
            tv_sec: 0,
            tv_nsec: 0
        })
    );
}

#[test]
fn diff_without_borrow() {
    let start = TimeSpec {
        tv_sec: 10,
        tv_nsec: 1,
    };
    let stop = TimeSpec {
        tv_sec: 12,
        tv_nsec: 999_999_999,
    };
    assert_eq!(
        timespecff_diff(&start, &stop),
        Some(TimeSpec {
            tv_sec: 2,
            tv_nsec: 999_999_998
        })
    );
}

#[test]
fn diff_of_values_that_are_not_normal() {
    let start = TimeSpec {
        tv_sec: 0,
        tv_nsec: -1,
    };
    let stop = TimeSpec {
        tv_sec: 0,
        tv_nsec: 2_000_000_001,
    };
    assert_eq!(
        timespecff_diff(&start, &stop),
        Some(TimeSpec {
            tv_sec: 2,
            tv_nsec: 2
        })
    );
}

#[test]
fn diff_that_does_not_fit() {
    let start = TimeSpec {
        tv_sec: i64::MIN,
        tv_nsec: 0,
    };
    let stop = TimeSpec {
        tv_sec: i64::MAX,
        tv_nsec: 0,
    };
    assert_eq!(timespecff_diff(&start, &stop), None);
    let stop = TimeSpec {
        tv_sec: -1,
        tv_nsec: 0,
    };
    assert_eq!(
        timespecff_diff(&start, &stop),
        Some(TimeSpec {
            tv_sec: i64::MAX,
            tv_nsec: 0
        })
    );
}

#[test]
fn perf_op_field_holds_its_byte() {
    assert_eq!(PerfOpField::new(0x30), PerfOpField(0x30));
    assert_eq!(PerfOpField::new(7).0, 7);
    assert_eq!(PerfOpField::new(9).to_primitive_values(), (9,));
    assert_eq!(PerfOpField::req_start(), PerfOpField(0x00));
    assert_eq!(PerfOpField::req_end(), PerfOpField(0x01));
    assert_eq!(PerfOpField::res_start(), PerfOpField(0x20));
    assert_eq!(PerfOpField::res_end(), PerfOpField(0x21));
    assert_eq!(PerfOpField::data(), PerfOpField(0x30));
    assert_eq!(PerfOpField::req_result(), PerfOpField(0x40));
    assert_eq!(PerfOpField::res_result(), PerfOpField(0x41));
    assert!(PerfOpField::req_start() < PerfOpField::data());
}
