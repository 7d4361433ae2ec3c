use bare_io::ports::PortOp;
use bare_io::serial::SerialPort;
use bare_io::uart_model::UartModel;

fn write_op(port: u16, value: u8) -> PortOp {
    PortOp::Out8 { port, value }
}

fn read_op(port: u16) -> PortOp {
    PortOp::In8 { port }
}

#[test]
fn standard_addresses_are_accepted() {
    for base in [0x3f8u16, 0x2f8, 0x3e8, 0x2e8, 0x5f8, 0x4f8, 0x5e8, 0x4e8] {
        assert!(SerialPort::is_valid_base(base));
        assert_eq!(SerialPort::new(base).address(), base);
    }
}

#[test]
fn other_addresses_are_refused() {
    assert!(!SerialPort::is_valid_base(0x1234));
    assert!(!SerialPort::is_valid_base(0));
    assert!(!SerialPort::is_valid_base(0x3f9));
    assert!(!SerialPort::is_valid_base(0x3f0));
    assert!(!SerialPort::is_valid_base(u16::MAX));
}

#[test]
fn init_programs_the_line() {
    let port = SerialPort::new(0x3f8);
    assert_eq!(
        port.init(),
        vec![
            write_op(0x3f9, 0x00),
            write_op(0x3fb, 0x80),
            write_op(0x3f8, 0x03),
            write_op(0x3f9, 0x00),
            write_op(0x3fb, 0x03),
            write_op(0x3fa, 0xc7),
            write_op(0x3fc, 0x0b),
            write_op(0x3f9, 0x01),
        ]
    );
}

#[test]
fn init_configures_the_model() {
    let port = SerialPort::new(0x2f8);
    let mut uart = UartModel::new(0x2f8, 5, 0, Vec::new());
    uart.line_control = 0x80;
    uart.interrupt_enable = 0x0f;
    let read = uart.run(&port.init());
    assert!(read.is_empty());
    assert_eq!(uart.divisor_low, 0x03);
    assert_eq!(uart.divisor_high, 0x00);
    assert_eq!(uart.line_control, 0x03);
    assert_eq!(uart.fifo_control, 0xc7);
    assert_eq!(uart.modem_control, 0x0b);
    assert_eq!(uart.interrupt_enable, 0x01);
    assert_eq!(uart.status_reads, 0);
    assert!(uart.sent.is_empty());
}

#[test]
fn send_backspace_is_visual() {
    let port = SerialPort::new(0x3f8);
    assert_eq!(port.send(0x08), vec![0x08, 0x20, 0x08]);
}

#[test]
fn send_del_is_visual() {
    let port = SerialPort::new(0x3f8);
    assert_eq!(port.send(0x7f), vec![0x08, 0x20, 0x08]);
}

#[test]
fn send_plain_byte_is_raw() {
    let port = SerialPort::new(0x3f8);
    assert_eq!(port.send(0x41), vec![0x41]);
    assert_eq!(port.send(0x00), vec![0x00]);
    assert_eq!(port.send(0x20), vec![0x20]);
    assert_eq!(port.send(0x7e), vec![0x7e]);
    assert_eq!(port.send(0xff), vec![0xff]);
}

#[test]
fn write_str_goes_byte_by_byte() {
    let port = SerialPort::new(0x3f8);
    assert_eq!(port.write_str(b""), Vec::<u8>::new());
    assert_eq!(port.write_str(b"ok\n"), vec![b'o', b'k', b'\n']);
    assert_eq!(
        port.write_str(b"a\x08b\x7f"),
        vec![b'a', 0x08, 0x20, 0x08, b'b', 0x08, 0x20, 0x08]
    );
}

#[test]
fn line_status_poll() {
    assert_eq!(SerialPort::new(0x3f8).line_sts(), read_op(0x3fd));
    assert_eq!(SerialPort::new(0x4e8).line_sts(), read_op(0x4ed));
}

#[test]
fn send_raw_waits_for_output_empty() {
    let port = SerialPort::new(0x3f8);
    assert_eq!(port.send_raw(0x41, 0x00), read_op(0x3fd));
    assert_eq!(port.send_raw(0x41, 0x01), read_op(0x3fd));
    assert_eq!(port.send_raw(0x41, 0xdf), read_op(0x3fd));
    assert_eq!(port.send_raw(0x41, 0x20), write_op(0x3f8, 0x41));
    assert_eq!(port.send_raw(0x08, 0x21), write_op(0x3f8, 0x08));
    assert_eq!(port.send_raw(0x7f, 0xff), write_op(0x3f8, 0x7f));
}

#[test]
fn receive_waits_for_input_full() {
    let port = SerialPort::new(0x2e8);
    assert_eq!(port.receive(0x00), read_op(0x2ed));
    assert_eq!(port.receive(0x20), read_op(0x2ed));
    assert_eq!(port.receive(0xfe), read_op(0x2ed));
    assert_eq!(port.receive(0x01), read_op(0x2e8));
    assert_eq!(port.receive(0x21), read_op(0x2e8));
}

#[test]
fn send_raw_polls_once_more_than_the_transmitter_is_busy() {
    let port = SerialPort::new(0x3f8);
    for busy in [0u64, 1, 2, 7, 100] {
        let mut uart = UartModel::new(0x3f8, busy, 0, Vec::new());
        uart.send_raw(&port, 0x5a);
        assert_eq!(uart.status_reads, busy + 1);
        assert_eq!(uart.sent, vec![0x5a]);
        assert_eq!(uart.tx_busy, 0);
    }
}

#[test]
fn send_raw_by_hand_polls_before_the_write() {
    let port = SerialPort::new(0x3f8);
    let mut uart = UartModel::new(0x3f8, 3, 0, Vec::new());
    let mut trace = Vec::new();
    let mut op = port.line_sts();
    loop {
        trace.push(op);
        match uart.execute(op) {
            Some(status) => op = port.send_raw(0x41, status),
            None => break,
        }
    }
    assert_eq!(
        trace,
        vec![read_op(0x3fd), read_op(0x3fd), read_op(0x3fd), read_op(0x3fd), write_op(0x3f8, 0x41)]
    );
    assert_eq!(uart.sent, vec![0x41]);
}

#[test]
fn a_write_to_a_busy_transmitter_is_lost() {
    let mut uart = UartModel::new(0x3f8, 2, 0, Vec::new());
    assert_eq!(uart.execute(write_op(0x3f8, 0x41)), None);
    assert!(uart.sent.is_empty());
}

#[test]
fn model_send_echoes_backspace() {
    let port = SerialPort::new(0x3f8);
    let mut uart = UartModel::new(0x3f8, 4, 0, Vec::new());
    uart.tx_delay = 2;
    uart.send(&port, 0x08);
    assert_eq!(uart.sent, vec![0x08, 0x20, 0x08]);
    assert_eq!(uart.status_reads, 5 + 3 + 3);
    assert_eq!(uart.tx_busy, 2);
    uart.send(&port, 0x41);
    assert_eq!(uart.sent, vec![0x08, 0x20, 0x08, 0x41]);
    assert_eq!(uart.status_reads, 11 + 3);
}

#[test]
fn receive_polls_once_more_than_the_receiver_is_idle() {
    let port = SerialPort::new(0x2f8);
    for idle in [0u64, 1, 5, 64] {
        let mut uart = UartModel::new(0x2f8, 0, idle, vec![0x31, 0x32]);
        assert_eq!(uart.receive(&port), 0x31);
        assert_eq!(uart.status_reads, idle + 1);
        assert_eq!(uart.incoming, vec![0x32]);
        assert_eq!(uart.receive(&port), 0x32);
        assert_eq!(uart.status_reads, idle + 2);
        assert!(uart.incoming.is_empty());
    }
}

#[test]
fn status_byte_carries_both_bits() {
    let mut uart = UartModel::new(0x3f8, 1, 1, vec![0x55]);
    assert_eq!(uart.execute(read_op(0x3fd)), Some(0x00));
    assert_eq!(uart.execute(read_op(0x3fd)), Some(0x21));
    let mut uart = UartModel::new(0x3f8, 0, 0, Vec::new());
    assert_eq!(uart.execute(read_op(0x3fd)), Some(0x20));
    let mut uart = UartModel::new(0x3f8, 9, 0, vec![0x55]);
    assert_eq!(uart.execute(read_op(0x3fd)), Some(0x01));
}

#[test]
fn divisor_latch_redirects_the_first_two_registers() {
    let mut uart = UartModel::new(0x3f8, 0, 0, Vec::new());
    uart.execute(write_op(0x3fb, 0x80));
    uart.execute(write_op(0x3f8, 0x0c));
    uart.execute(write_op(0x3f9, 0x01));
    assert_eq!(uart.divisor_low, 0x0c);
    assert_eq!(uart.divisor_high, 0x01);
    assert!(uart.sent.is_empty());
    assert_eq!(uart.execute(read_op(0x3f8)), Some(0x0c));
    assert_eq!(uart.execute(read_op(0x3f9)), Some(0x01));
    uart.execute(write_op(0x3fb, 0x03));
    uart.execute(write_op(0x3f8, 0x0c));
    assert_eq!(uart.sent, vec![0x0c]);
}

#[test]
fn uart_model_ignores_foreign_ports_and_widths() {
    let mut uart = UartModel::new(0x3f8, 0, 0, Vec::new());
    assert_eq!(uart.execute(read_op(0x3f7)), Some(0xff));
    assert_eq!(uart.execute(read_op(0x3fe)), Some(0xff));
    assert_eq!(uart.execute(write_op(0x2f8, 0x41)), None);
    assert_eq!(uart.execute(PortOp::Out16 { port: 0x3f8, value: 0x4141 }), None);
    assert!(uart.sent.is_empty());
    assert_eq!(uart.status_reads, 0);
}
