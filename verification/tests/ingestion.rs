use udp_to_redis::cancel::KillPoll;
use udp_to_redis::common::{JsonData, KillSwitch, MPU6050DataInner, Real, UWBDataInner};
use udp_to_redis::json::{Member, Numeral};
use udp_to_redis::network::udp::{IngestAction, IngestEvent, IngestState, UdpWorker};
use udp_to_redis::record::{classify, fields, Fields};

fn num(text: &str) -> Real {
    Real { text: text.to_string() }
}

fn number(unsigned: Option<u64>, signed: Option<i64>, double: &str) -> Member {
    Member::Number(Numeral { unsigned, signed, double: Some(double.to_string()) })
}

fn receiving() -> UdpWorker {
    let (worker, action) = UdpWorker::new().step(IngestEvent::Polled(KillPoll::Empty));
    assert_eq!(action, IngestAction::Receive);
    assert_eq!(worker.state(), IngestState::Receiving);
    worker
}

fn no_fields() -> Fields {
    Fields {
        source: Member::Absent,
        destination: Member::Absent,
        range: Member::Absent,
        frequency: Member::Absent,
        acc_x: Member::Absent,
        acc_y: Member::Absent,
        acc_z: Member::Absent,
        rot_x: Member::Absent,
        rot_y: Member::Absent,
        rot_z: Member::Absent,
        timestamp: Member::Absent,
    }
}

#[test]
fn datagram_text_loses_padding_and_whitespace() {
    let mut buf = b"  \t{\"a\":1}\r\n".to_vec();
    buf.extend_from_slice(&[0u8; 40]);
    assert_eq!(UdpWorker::parse_msg_to_str(&buf).unwrap(), "{\"a\":1}");
}

#[test]
fn datagram_text_of_padding_alone_is_empty() {
    assert_eq!(UdpWorker::parse_msg_to_str(&[0u8; 512]).unwrap(), "");
    assert_eq!(UdpWorker::parse_msg_to_str(&[]).unwrap(), "");
}

#[test]
fn datagram_text_keeps_padding_that_is_not_at_the_end() {
    assert_eq!(UdpWorker::parse_msg_to_str(b"\0ab\0c \0\0").unwrap(), "\0ab\0c");
    assert_eq!(UdpWorker::parse_msg_to_str(b"ab\0 ").unwrap(), "ab\0");
}

#[test]
fn datagram_text_loses_whitespace_beyond_ascii() {
    let text = "\u{a0}\u{2003}x y\u{3000}\u{85}";
    assert_eq!(UdpWorker::parse_msg_to_str(text.as_bytes()).unwrap(), "x y");
}

#[test]
fn datagram_that_is_no_utf8_is_refused() {
    assert!(UdpWorker::parse_msg_to_str(&[0x7b, 0xff, 0x7d]).is_err());
    assert!(UdpWorker::parse_msg_to_str(&[0xc0, 0x80]).is_err());
    assert!(UdpWorker::parse_msg_to_str(&[0xed, 0xa0, 0x80]).is_err());
    assert!(UdpWorker::parse_msg_to_str(&[0xe2, 0x82]).is_err());
}

#[test]
fn ranging_text_is_a_ranging_measurement() {
    let data = UdpWorker::parse_msg_str_as_json("{\"source\":\"s1\",\"range\":12.5}").unwrap();
    assert_eq!(
        data,
        JsonData::UWBData(UWBDataInner {
            source: "s1".to_string(),
            destination: None,
            range: num("12.5"),
            timestamp: None,
        })
    );
}

#[test]
fn ranging_text_with_destination_and_timestamp() {
    let text = "{\"timestamp\":17,\"range\":3,\"destination\":\"anchor\",\"source\":\"tag\"}";
    let data = UdpWorker::parse_msg_str_as_json(text).unwrap();
    assert_eq!(
        data,
        JsonData::UWBData(UWBDataInner {
            source: "tag".to_string(),
            destination: Some("anchor".to_string()),
            range: num("3.0"),
            timestamp: Some(17),
        })
    );
}

#[test]
fn ranging_text_with_null_destination_and_timestamp() {
    let text = "{\"source\":\"tag\",\"destination\":null,\"range\":-0.5,\"timestamp\":null}";
    let data = UdpWorker::parse_msg_str_as_json(text).unwrap();
    assert_eq!(
        data,
        JsonData::UWBData(UWBDataInner {
            source: "tag".to_string(),
            destination: None,
            range: num("-0.5"),
            timestamp: None,
        })
    );
}

#[test]
fn inertial_text_is_an_inertial_reading() {
    let text = "{\"source\":\"n1\",\"frequency\":50,\"acc_x\":0.1,\"acc_y\":-0.2,\
                \"acc_z\":9.81,\"rot_x\":1,\"rot_y\":0,\"rot_z\":-3,\"timestamp\":5}";
    let data = UdpWorker::parse_msg_str_as_json(text).unwrap();
    assert_eq!(
        data,
        JsonData::MPU6050Data(MPU6050DataInner {
            source: "n1".to_string(),
            frequency: 50,
            acc_x: num("0.1"),
            acc_y: num("-0.2"),
            acc_z: num("9.81"),
            rot_x: num("1.0"),
            rot_y: num("0.0"),
            rot_z: num("-3.0"),
            timestamp: Some(5),
        })
    );
}

#[test]
fn text_with_the_members_of_both_is_an_inertial_reading() {
    let text = "{\"source\":\"n1\",\"frequency\":-7,\"acc_x\":1.5,\"acc_y\":1.5,\"acc_z\":1.5,\
                \"rot_x\":1.5,\"rot_y\":1.5,\"rot_z\":1.5,\"range\":4.25,\"destination\":\"d\"}";
    match UdpWorker::parse_msg_str_as_json(text).unwrap() {
        JsonData::MPU6050Data(m) => {
            assert_eq!(m.frequency, -7);
            assert_eq!(m.timestamp, None);
        }
        other => panic!("not an inertial reading: {:?}", other),
    }
}

#[test]
fn inertial_text_short_of_a_member_falls_back_to_ranging() {
    let text = "{\"source\":\"n1\",\"frequency\":1,\"acc_x\":1.5,\"acc_y\":1.5,\"acc_z\":1.5,\
                \"rot_x\":1.5,\"rot_y\":1.5,\"range\":4.25}";
    match UdpWorker::parse_msg_str_as_json(text).unwrap() {
        JsonData::UWBData(u) => assert_eq!(u.range, num("4.25")),
        other => panic!("not a ranging measurement: {:?}", other),
    }
}

#[test]
fn unknown_members_are_passed_over() {
    let text = "{\"source\":\"s\",\"range\":1.25,\"battery\":[1,2],\"ok\":true}";
    assert!(UdpWorker::parse_msg_str_as_json(text).is_ok());
}

#[test]
fn text_that_is_no_json_is_refused() {
    for text in ["", "{", "{\"source\":\"s1\",\"range\":12.5", "source=s1", "{\"range\":1e999,\"source\":\"s\"}", "{\"source\":\"s\",\"range\":1} x"] {
        assert!(UdpWorker::parse_msg_str_as_json(text).is_err(), "{}", text);
    }
}

#[test]
fn json_that_is_no_record_is_refused() {
    for text in [
        "null",
        "12.5",
        "[\"s1\",12.5]",
        "{}",
        "{\"source\":\"s1\"}",
        "{\"range\":12.5}",
        "{\"source\":7,\"range\":12.5}",
        "{\"source\":null,\"range\":12.5}",
        "{\"source\":\"s1\",\"range\":\"12.5\"}",
        "{\"source\":\"s1\",\"range\":null}",
        "{\"source\":\"s1\",\"range\":12.5,\"destination\":7}",
        "{\"source\":\"s1\",\"range\":12.5,\"timestamp\":-1}",
        "{\"source\":\"s1\",\"range\":12.5,\"timestamp\":1.5}",
        "{\"source\":\"s1\",\"range\":12.5,\"timestamp\":\"now\"}",
        "{\"source\":\"s1\",\"range\":12.5,\"timestamp\":18446744073709551616}",
    ] {
        assert!(UdpWorker::parse_msg_str_as_json(text).is_err(), "{}", text);
    }
}

#[test]
fn frequency_must_be_an_integer_of_32_bits() {
    let with = |frequency: &str| {
        format!(
            "{{\"source\":\"n\",\"frequency\":{},\"acc_x\":1,\"acc_y\":1,\"acc_z\":1,\
             \"rot_x\":1,\"rot_y\":1,\"rot_z\":1}}",
            frequency
        )
    };
    for good in ["0", "2147483647", "-2147483648"] {
        assert!(UdpWorker::parse_msg_str_as_json(&with(good)).is_ok(), "{}", good);
    }
    for bad in ["2147483648", "-2147483649", "1.0", "1e2", "\"1\"", "null", "18446744073709551615"] {
        assert!(UdpWorker::parse_msg_str_as_json(&with(bad)).is_err(), "{}", bad);
    }
}

#[test]
fn timestamp_may_be_any_unsigned_integer_of_64_bits() {
    let text = "{\"source\":\"s\",\"range\":1,\"timestamp\":18446744073709551615}";
    match UdpWorker::parse_msg_str_as_json(text).unwrap() {
        JsonData::UWBData(u) => assert_eq!(u.timestamp, Some(u64::MAX)),
        other => panic!("not a ranging measurement: {:?}", other),
    }
}

#[test]
fn fields_report_what_the_document_holds() {
    let document = serde_json::from_str::<serde_json::Value>(
        "{\"source\":\"s\",\"destination\":null,\"range\":12,\"frequency\":-3,\
         \"acc_x\":1.5,\"acc_y\":18446744073709551615,\"acc_z\":true,\"rot_x\":[1],\
         \"rot_y\":{\"a\":1},\"timestamp\":\"t\"}",
    )
    .unwrap();
    let held = fields(&document);
    assert_eq!(held.source, Member::Text("s".to_string()));
    assert_eq!(held.destination, Member::Null);
    assert_eq!(held.range, number(Some(12), Some(12), "12.0"));
    assert_eq!(held.frequency, number(None, Some(-3), "-3.0"));
    assert_eq!(held.acc_x, number(None, None, "1.5"));
    match held.acc_y {
        Member::Number(n) => {
            assert_eq!(n.unsigned, Some(u64::MAX));
            assert_eq!(n.signed, None);
            assert!(n.double.is_some());
        }
        other => panic!("not a number: {:?}", other),
    }
    assert_eq!(held.acc_z, Member::Other);
    assert_eq!(held.rot_x, Member::Other);
    assert_eq!(held.rot_y, Member::Other);
    assert_eq!(held.rot_z, Member::Absent);
    assert_eq!(held.timestamp, Member::Text("t".to_string()));
}

#[test]
fn fields_of_a_document_that_is_no_object_are_absent() {
    let document = serde_json::from_str::<serde_json::Value>("[1,2]").unwrap();
    assert_eq!(fields(&document), no_fields());
}

#[test]
fn classify_takes_fields_as_given() {
    let mut held = no_fields();
    assert!(classify(&held).is_err());
    held.source = Member::Text("a".to_string());
    held.range = number(None, None, "2.5");
    held.timestamp = number(Some(9), Some(9), "9.0");
    assert_eq!(
        classify(&held).unwrap(),
        JsonData::UWBData(UWBDataInner {
            source: "a".to_string(),
            destination: None,
            range: num("2.5"),
            timestamp: Some(9),
        })
    );
    held.range = Member::Number(Numeral { unsigned: Some(2), signed: Some(2), double: None });
    assert!(classify(&held).is_err());
}

#[test]
fn datagram_becomes_a_stamped_record() {
    let record = UdpWorker::envelope(b"{\"source\":\"s1\",\"range\":12.5,\"timestamp\":1}\0\0", Some(99));
    assert_eq!(
        record,
        Some(JsonData::UWBData(UWBDataInner {
            source: "s1".to_string(),
            destination: None,
            range: num("12.5"),
            timestamp: Some(99),
        }))
    );
}

#[test]
fn datagram_keeps_its_timestamp_when_the_clock_gives_none() {
    match UdpWorker::envelope(b"{\"source\":\"s1\",\"range\":12.5,\"timestamp\":1}", None) {
        Some(JsonData::UWBData(u)) => assert_eq!(u.timestamp, Some(1)),
        other => panic!("not a ranging measurement: {:?}", other),
    }
    match UdpWorker::envelope(b"{\"source\":\"s1\",\"range\":12.5}", None) {
        Some(JsonData::UWBData(u)) => assert_eq!(u.timestamp, None),
        other => panic!("not a ranging measurement: {:?}", other),
    }
}

#[test]
fn add_timestamp_reads_the_clock() {
    let before = std::time::SystemTime::now()
        .duration_since(std::time::UNIX_EPOCH)
        .unwrap()
        .as_secs();
    let mut data = UdpWorker::parse_msg_str_as_json("{\"source\":\"s1\",\"range\":12.5,\"timestamp\":3}").unwrap();
    UdpWorker::add_timestamp_to_json(&mut data);
    let after = std::time::SystemTime::now()
        .duration_since(std::time::UNIX_EPOCH)
        .unwrap()
        .as_secs();
    match data {
        JsonData::UWBData(u) => {
            let stamp = u.timestamp.unwrap();
            assert!(before <= stamp && stamp <= after);
            assert_eq!(u.range, num("12.5"));
        }
        other => panic!("not a ranging measurement: {:?}", other),
    }
}

#[test]
fn poll_decides_between_receive_and_exit() {
    for poll in [KillPoll::Empty, KillPoll::Signal(KillSwitch::OFF)] {
        let (worker, action) = UdpWorker::new().step(IngestEvent::Polled(poll));
        assert_eq!(action, IngestAction::Receive);
        assert_eq!(worker.state(), IngestState::Receiving);
    }
    for poll in [KillPoll::Disconnected, KillPoll::Signal(KillSwitch::ON)] {
        let (worker, action) = UdpWorker::new().step(IngestEvent::Polled(poll));
        assert_eq!(action, IngestAction::Exit);
        assert_eq!(worker.state(), IngestState::Exited);
    }
}

#[test]
fn nothing_is_forwarded_after_a_stop() {
    let (mut worker, action) = UdpWorker::new().step(IngestEvent::Polled(KillPoll::Signal(KillSwitch::ON)));
    assert_eq!(action, IngestAction::Exit);
    let good = b"{\"source\":\"s1\",\"range\":12.5}".to_vec();
    for event in [
        IngestEvent::Received(Some(good), Some(1)),
        IngestEvent::Polled(KillPoll::Empty),
        IngestEvent::Forwarded(true),
        IngestEvent::Received(None, None),
    ] {
        let (next, action) = worker.step(event);
        assert_eq!(action, IngestAction::Exit);
        assert_eq!(next.state(), IngestState::Exited);
        worker = next;
    }
}

#[test]
fn bad_datagrams_cost_nothing_but_themselves() {
    let bad: [&[u8]; 4] = [&[0xff, 0xfe], b"not json", b"{\"source\":\"s1\"}", &[0u8; 512]];
    let mut worker = receiving();
    for datagram in bad {
        let (next, action) = worker.step(IngestEvent::Received(Some(datagram.to_vec()), Some(5)));
        assert_eq!(action, IngestAction::Poll);
        assert_eq!(next.state(), IngestState::Polling);
        let (next, action) = next.step(IngestEvent::Polled(KillPoll::Empty));
        assert_eq!(action, IngestAction::Receive);
        worker = next;
    }
    let good = b"{\"source\":\"s1\",\"range\":12.5}".to_vec();
    let (worker, action) = worker.step(IngestEvent::Received(Some(good), Some(6)));
    assert_eq!(worker.state(), IngestState::Forwarding);
    assert_eq!(
        action,
        IngestAction::Forward(JsonData::UWBData(UWBDataInner {
            source: "s1".to_string(),
            destination: None,
            range: num("12.5"),
            timestamp: Some(6),
        }))
    );
}

#[test]
fn failed_read_sends_the_worker_back_to_the_poll() {
    let (worker, action) = receiving().step(IngestEvent::Received(None, Some(5)));
    assert_eq!(action, IngestAction::Poll);
    assert_eq!(worker.state(), IngestState::Polling);
}

#[test]
fn worker_ends_when_the_record_cannot_be_handed_over() {
    let good = b"{\"source\":\"s1\",\"range\":12.5}".to_vec();
    let (worker, _) = receiving().step(IngestEvent::Received(Some(good.clone()), Some(6)));
    let (worker, action) = worker.step(IngestEvent::Forwarded(false));
    assert_eq!(action, IngestAction::Exit);
    assert_eq!(worker.state(), IngestState::Exited);

    let (worker, _) = receiving().step(IngestEvent::Received(Some(good), Some(6)));
    let (worker, action) = worker.step(IngestEvent::Forwarded(true));
    assert_eq!(action, IngestAction::Poll);
    assert_eq!(worker.state(), IngestState::Polling);
}

#[test]
fn event_that_is_not_awaited_changes_nothing() {
    let (worker, action) = UdpWorker::new().step(IngestEvent::Forwarded(false));
    assert_eq!(action, IngestAction::Nothing);
    assert_eq!(worker.state(), IngestState::Polling);
    let (worker, action) = receiving().step(IngestEvent::Polled(KillPoll::Disconnected));
    assert_eq!(action, IngestAction::Nothing);
    assert_eq!(worker.state(), IngestState::Receiving);
}
