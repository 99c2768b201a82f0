use gridlink::parse_device_reply;
use gridlink::request_discovery;
use gridlink::DeviceDescriptor;
use gridlink::GridSession;
use gridlink::Message;
use gridlink::OscArg;
use gridlink::ParseError;

fn key_msg(x: i32, y: i32, state: i32) -> Message {
    Message {
        addr: "/grid/key".to_owned(),
        args: vec![OscArg::Int(x), OscArg::Int(y), OscArg::Int(state)],
    }
}

fn device_reply(serial: &str, device_type: &str, port: i32) -> Message {
    Message {
        addr: "/serialosc/device".to_owned(),
        args: vec![
            OscArg::Str(serial.to_owned()),
            OscArg::Str(device_type.to_owned()),
            OscArg::Int(port),
        ],
    }
}

fn descriptor(id: &str, host: &str, port: u16) -> DeviceDescriptor {
    DeviceDescriptor {
        id: id.to_owned(),
        host: host.to_owned(),
        command_port: port,
    }
}

#[test]
fn new_session_is_dark_and_unattached() {
    let s = GridSession::new();
    assert!(!s.is_attached());
    assert_eq!(s.event_port(), gridlink::DEFAULT_EVENT_PORT);
    for y in 0..8 {
        assert_eq!(s.latch_row(y), 0);
    }
}

#[test]
fn press_flips_cell_exactly_once() {
    let mut s = GridSession::new();
    s.toggle_via_key_event(3, 2, 1);
    assert_eq!(s.latch_row(2), 0b0000_1000);
    for y in 0..8 {
        if y != 2 {
            assert_eq!(s.latch_row(y), 0);
        }
    }
}

#[test]
fn release_never_mutates() {
    let mut s = GridSession::new();
    s.toggle_via_key_event(3, 2, 0);
    for y in 0..8 {
        assert_eq!(s.latch_row(y), 0);
    }
    s.toggle_via_key_event(3, 2, 1);
    s.toggle_via_key_event(3, 2, 0);
    assert_eq!(s.latch_row(2), 0b0000_1000);
}

#[test]
fn double_press_restores_the_cell() {
    let mut s = GridSession::new();
    s.toggle_via_key_event(5, 7, 1);
    s.toggle_via_key_event(5, 7, 1);
    for y in 0..8 {
        assert_eq!(s.latch_row(y), 0);
    }
}

#[test]
fn out_of_range_events_are_ignored() {
    let mut s = GridSession::new();
    s.toggle_via_key_event(8, 0, 1);
    s.toggle_via_key_event(0, -1, 1);
    s.toggle_via_key_event(-1, 3, 1);
    s.toggle_via_key_event(2, 8, 1);
    s.toggle_via_key_event(100, 100, 1);
    for y in 0..8 {
        assert_eq!(s.latch_row(y), 0);
    }
    let inbox = vec![key_msg(8, 0, 1), key_msg(0, -1, 1)];
    let out = s.tick(&inbox);
    assert_eq!(out.len(), 8);
    for y in 0..8 {
        assert_eq!(s.latch_row(y), 0);
    }
}

#[test]
fn tick_emits_exactly_eight_rows() {
    let mut s = GridSession::new();
    let inbox = vec![
        key_msg(0, 0, 1),
        key_msg(1, 0, 1),
        key_msg(7, 6, 1),
        key_msg(7, 6, 0),
        Message {
            addr: "/tilt".to_owned(),
            args: vec![OscArg::Int(0), OscArg::Int(12), OscArg::Int(34)],
        },
    ];
    let out = s.tick(&inbox);
    assert_eq!(out.len(), 8);
    for (y, m) in out.iter().enumerate() {
        assert_eq!(m.addr, "/grid/led/row");
        assert_eq!(
            m.args,
            vec![
                OscArg::Int(0),
                OscArg::Int(y as i32),
                OscArg::Int(s.latch_row(y) as i32)
            ]
        );
    }
    assert_eq!(s.latch_row(0), 0b0000_0011);
    assert_eq!(s.latch_row(6), 0b1000_0000);
}

#[test]
fn non_key_messages_are_ignored() {
    let mut s = GridSession::new();
    let inbox = vec![
        Message {
            addr: "/grid/tilt".to_owned(),
            args: vec![OscArg::Int(1), OscArg::Int(1), OscArg::Int(1)],
        },
        Message {
            addr: "/grid/key".to_owned(),
            args: vec![OscArg::Int(1), OscArg::Int(1)],
        },
        Message {
            addr: "/grid/key".to_owned(),
            args: vec![OscArg::Int(1), OscArg::Int(1), OscArg::Str("1".to_owned())],
        },
    ];
    s.tick(&inbox);
    for y in 0..8 {
        assert_eq!(s.latch_row(y), 0);
    }
}

#[test]
fn parse_good_reply_copies_fields_verbatim() {
    let m = device_reply("m0000123", "monome 128", 14001);
    let d = parse_device_reply(&m, "127.0.0.1".to_owned()).unwrap();
    assert_eq!(d, descriptor("m0000123", "127.0.0.1", 14001));
}

#[test]
fn parse_wrong_address_rejected() {
    let mut m = device_reply("m1", "monome", 14001);
    m.addr = "/serialosc/add".to_owned();
    let r = parse_device_reply(&m, "127.0.0.1".to_owned());
    assert_eq!(r, Err(ParseError::WrongAddress));
}

#[test]
fn parse_two_args_rejected() {
    let m = Message {
        addr: "/serialosc/device".to_owned(),
        args: vec![OscArg::Str("m1".to_owned()), OscArg::Str("monome".to_owned())],
    };
    let r = parse_device_reply(&m, "127.0.0.1".to_owned());
    assert_eq!(r, Err(ParseError::WrongArgCount));
}

#[test]
fn parse_wrong_typed_third_arg_rejected() {
    let m = Message {
        addr: "/serialosc/device".to_owned(),
        args: vec![
            OscArg::Str("m1".to_owned()),
            OscArg::Str("monome".to_owned()),
            OscArg::Str("14001".to_owned()),
        ],
    };
    let r = parse_device_reply(&m, "127.0.0.1".to_owned());
    assert_eq!(r, Err(ParseError::WrongArgType));
}

#[test]
fn parse_port_out_of_range_rejected() {
    let m = device_reply("m1", "monome", 70000);
    let r = parse_device_reply(&m, "127.0.0.1".to_owned());
    assert_eq!(r, Err(ParseError::PortOutOfRange));
    let m = device_reply("m1", "monome", -1);
    let r = parse_device_reply(&m, "127.0.0.1".to_owned());
    assert_eq!(r, Err(ParseError::PortOutOfRange));
}

#[test]
fn request_discovery_names_the_reply_endpoint() {
    let m = request_discovery("127.0.0.1".to_owned(), gridlink::DISCOVERY_REPLY_PORT);
    assert_eq!(m.addr, "/serialosc/list");
    assert_eq!(
        m.args,
        vec![OscArg::Str("127.0.0.1".to_owned()), OscArg::Int(12288)]
    );
}

#[test]
fn event_port_is_configurable_and_reported() {
    let mut s = GridSession::new_with_event_port(14999);
    assert_eq!(s.event_port(), 14999);
    let cmd = s.attach(&descriptor("m1", "127.0.0.1", 14001));
    assert_eq!(cmd.addr, "/sys/port");
    assert_eq!(cmd.args, vec![OscArg::Int(14999)]);
}

#[test]
fn attach_reports_event_port_and_binds_command_channel() {
    let mut s = GridSession::new();
    let cmd = s.attach(&descriptor("m1", "127.0.0.1", 14001));
    assert!(s.is_attached());
    assert_eq!(s.device_host(), "127.0.0.1");
    assert_eq!(s.device_port(), 14001);
    assert_eq!(cmd.addr, "/sys/port");
    assert_eq!(cmd.args, vec![OscArg::Int(13001)]);
}

#[test]
fn attach_twice_last_descriptor_wins() {
    let mut s = GridSession::new();
    s.toggle(0, 0);
    s.attach(&descriptor("m1", "10.0.0.1", 14001));
    let cmd = s.attach(&descriptor("m2", "10.0.0.2", 15001));
    assert_eq!(s.device_host(), "10.0.0.2");
    assert_eq!(s.device_port(), 15001);
    assert_eq!(cmd.addr, "/sys/port");
    assert_eq!(cmd.args, vec![OscArg::Int(13001)]);
    assert_eq!(s.latch_row(0), 1);
}

#[test]
fn set_all_bypasses_the_latch_by_default() {
    let mut s = GridSession::new();
    s.toggle(3, 2);
    let cmd = s.set_all(true, false);
    assert_eq!(cmd.addr, "/grid/led/all");
    assert_eq!(cmd.args, vec![OscArg::Int(1)]);
    assert_eq!(s.latch_row(2), 0b0000_1000);
    let cmd = s.set_all(false, false);
    assert_eq!(cmd.args, vec![OscArg::Int(0)]);
    assert_eq!(s.latch_row(2), 0b0000_1000);
}

#[test]
fn set_all_can_write_the_latch_instead() {
    let mut s = GridSession::new();
    s.toggle(3, 2);
    let cmd = s.set_all(true, true);
    assert_eq!(cmd.args, vec![OscArg::Int(1)]);
    for y in 0..8 {
        assert_eq!(s.latch_row(y), 0xff);
    }
    let cmd = s.set_all(false, true);
    assert_eq!(cmd.args, vec![OscArg::Int(0)]);
    for y in 0..8 {
        assert_eq!(s.latch_row(y), 0);
    }
}

#[test]
fn bundles_are_ignored_flat_messages_pass() {
    let p = gridlink::Packet::Bundle(vec![key_msg(1, 1, 1)]);
    assert_eq!(p.into_message(), None);
    let p = gridlink::Packet::Message(key_msg(1, 1, 1));
    assert_eq!(p.into_message(), Some(key_msg(1, 1, 1)));
}

#[test]
fn end_to_end_press_release_press() {
    let mut s = GridSession::new();
    s.attach(&descriptor("m1", "127.0.0.1", 14001));

    let out = s.tick(&vec![key_msg(3, 2, 1)]);
    assert_eq!(out[2].args[2], OscArg::Int(0b0000_1000));

    let out = s.tick(&vec![key_msg(3, 2, 0)]);
    assert_eq!(out[2].args[2], OscArg::Int(0b0000_1000));

    let out = s.tick(&vec![key_msg(3, 2, 1)]);
    assert_eq!(out[2].args[2], OscArg::Int(0));
}
