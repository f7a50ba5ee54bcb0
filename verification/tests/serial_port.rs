use ohyper::uart::{transmit_empty, PortWrite, SerialAction, SerialPort};

#[test]
fn set_up_sequence() {
    let (port, writes) = SerialPort::new(0x3f8);
    assert_eq!(port.port, 0x3f8);
    assert_eq!(port.pending, None);
    let expected = vec![
        PortWrite { port: 0x3f9, value: 0x00 },
        PortWrite { port: 0x3fb, value: 0x80 },
        PortWrite { port: 0x3f8, value: 0x01 },
        PortWrite { port: 0x3f9, value: 0x00 },
        PortWrite { port: 0x3fb, value: 0x03 },
    ];
    assert_eq!(writes, expected);
}

#[test]
fn send_waits_for_empty_holding_register() {
    let (mut port, _) = SerialPort::new(0x2f8);
    assert_eq!(port.send(b'A'), SerialAction::ReadLineStatus(0x2fd));
    assert_eq!(port.on_line_status(0x00), SerialAction::ReadLineStatus(0x2fd));
    assert_eq!(port.on_line_status(0x41), SerialAction::ReadLineStatus(0x2fd));
    assert_eq!(port.pending, Some(b'A'));
    assert_eq!(port.on_line_status(0x60), SerialAction::Write(PortWrite { port: 0x2f8, value: b'A' }));
    assert_eq!(port.pending, None);
}

#[test]
fn transmit_empty_bit() {
    assert!(transmit_empty(0x20));
    assert!(transmit_empty(0xff));
    assert!(!transmit_empty(0xdf));
    assert!(!transmit_empty(0x00));
}

#[test]
fn register_address() {
    let (port, _) = SerialPort::new(0x3f8);
    assert_eq!(port.register_write(5, 7), PortWrite { port: 0x3fd, value: 7 });
}
