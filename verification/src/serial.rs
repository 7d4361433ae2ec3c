//! Line driver for a port-mapped 16550 UART.
//!
//! Configuration is a fixed program of register writes. Sending and
//! receiving poll the line status register: given the status byte that the
//! last poll read, the driver names the next transfer, which is either the
//! data transfer itself or one more poll.

use crate::ports::{in8, out8, Port, PortOp};
use vstd::prelude::*;

verus! {

/// Data register address of the first serial port.
pub const COM1: u16 = 0x3f8;

pub const COM2: u16 = 0x2f8;

pub const COM3: u16 = 0x3e8;

pub const COM4: u16 = 0x2e8;

pub const COM5: u16 = 0x5f8;

pub const COM6: u16 = 0x4f8;

pub const COM7: u16 = 0x5e8;

pub const COM8: u16 = 0x4e8;

/// Interrupt enable register: no interrupt source enabled.
pub const INTERRUPTS_NONE: u8 = 0x00;

/// Interrupt enable register: interrupt when a byte was received.
pub const INTERRUPT_RECEIVED: u8 = 0x01;

/// Line control register: 8 data bits, no parity, one stop bit.
pub const LINE_CHAR8: u8 = 0x03;

/// Line control register: divisor latch access bit. While set, the data and
/// interrupt enable registers hold the low and high byte of the divisor.
pub const LINE_DLAB: u8 = 0x80;

/// Line status register: a received byte waits in the data register.
pub const STATUS_INPUT_FULL: u8 = 0x01;

/// Line status register: the transmitter takes another byte.
pub const STATUS_OUTPUT_EMPTY: u8 = 0x20;

/// Divisor for 38400 bps, low byte.
pub const DIVISOR_LOW: u8 = 0x03;

/// Divisor for 38400 bps, high byte.
pub const DIVISOR_HIGH: u8 = 0x00;

/// FIFO control register: enable, clear both queues, watermark at 14 bytes.
pub const FIFO_INIT: u8 = 0xc7;

/// Modem control register: data terminal ready, request to send, auxiliary
/// output 2.
pub const MODEM_INIT: u8 = 0x0b;

/// The eight standard serial port addresses.
pub open spec fn valid_base(base: u16) -> bool {
    base == 0x3f8 || base == 0x2f8 || base == 0x3e8 || base == 0x2e8 || base == 0x5f8 || base
        == 0x4f8 || base == 0x5e8 || base == 0x4e8
}

/// Whether the status byte reports that the transmitter takes another byte.
pub open spec fn output_empty(status: u8) -> bool {
    status & 0x20u8 != 0
}

/// Whether the status byte reports that a received byte waits.
pub open spec fn input_full(status: u8) -> bool {
    status & 0x01u8 != 0
}

/// The line initialization for the UART at `base`: interrupts off, divisor
/// for 38400 bps behind the divisor latch, 8-N-1 framing, FIFOs enabled and
/// cleared, modem lines asserted, then the received-data interrupt on.
pub open spec fn line_init_program(base: u16) -> Seq<PortOp> {
    seq![
        out8((base + 1) as u16, 0x00),
        out8((base + 3) as u16, 0x80),
        out8(base, 0x03),
        out8((base + 1) as u16, 0x00),
        out8((base + 3) as u16, 0x03),
        out8((base + 2) as u16, 0xc7),
        out8((base + 4) as u16, 0x0b),
        out8((base + 1) as u16, 0x01),
    ]
}

/// The raw bytes that go out for `data`: backspace and DEL become backspace,
/// space, backspace; every other byte goes out as it is.
pub open spec fn echo_of(data: u8) -> Seq<u8> {
    if data == 0x08 || data == 0x7f {
        seq![0x08u8, 0x20u8, 0x08u8]
    } else {
        seq![data]
    }
}

/// The raw bytes that go out for `text`, byte by byte.
pub open spec fn echo_of_text(text: Seq<u8>) -> Seq<u8>
    decreases text.len(),
{
    if text.len() == 0 {
        Seq::empty()
    } else {
        echo_of_text(text.drop_last()) + echo_of(text.last())
    }
}

/// A port-mapped UART.
pub struct SerialPort {
    data: Port<u8>,
    int_en: Port<u8>,
    fifo_ctrl: Port<u8>,
    line_ctrl: Port<u8>,
    modem_ctrl: Port<u8>,
    line_sts: Port<u8>,
}

impl SerialPort {
    /// The six registers lie at consecutive addresses from a standard base.
    #[verifier::type_invariant]
    closed spec fn registers_in_place(&self) -> bool {
        &&& valid_base(self.data.address())
        &&& self.int_en.address() == self.data.address() + 1
        &&& self.fifo_ctrl.address() == self.data.address() + 2
        &&& self.line_ctrl.address() == self.data.address() + 3
        &&& self.modem_ctrl.address() == self.data.address() + 4
        &&& self.line_sts.address() == self.data.address() + 5
    }

    /// The address of the data register.
    pub closed spec fn base(&self) -> u16 {
        self.data.address()
    }

    /// Tests whether `base` is one of the eight standard serial port
    /// addresses, the only ones that `new` takes.
    pub fn is_valid_base(base: u16) -> (valid: bool)
        ensures
            valid == valid_base(base),
    {
        base == COM1 || base == COM2 || base == COM3 || base == COM4 || base == COM5 || base
            == COM6 || base == COM7 || base == COM8
    }

    /// Creates the interface to the UART at `base`.
    pub fn new(base: u16) -> (port: SerialPort)
        requires
            valid_base(base),
        ensures
            port.base() == base,
            valid_base(port.base()),
    {
        SerialPort {
            data: Port::<u8>::new(base),
            int_en: Port::<u8>::new(base + 1),
            fifo_ctrl: Port::<u8>::new(base + 2),
            line_ctrl: Port::<u8>::new(base + 3),
            modem_ctrl: Port::<u8>::new(base + 4),
            line_sts: Port::<u8>::new(base + 5),
        }
    }

    /// The address of the data register.
    pub fn address(&self) -> (base: u16)
        ensures
            base == self.base(),
            valid_base(base),
    {
        proof {
            use_type_invariant(self);
        }
        self.data.port()
    }

    /// Configures the line for 38400 bps, 8-N-1.
    pub fn init(&self) -> (ops: Vec<PortOp>)
        ensures
            valid_base(self.base()),
            ops@ == line_init_program(self.base()),
    {
        proof {
            use_type_invariant(self);
        }
        let mut ops: Vec<PortOp> = Vec::new();
        ops.push(self.int_en.write(INTERRUPTS_NONE));
        ops.push(self.line_ctrl.write(LINE_DLAB));
        ops.push(self.data.write(DIVISOR_LOW));
        ops.push(self.int_en.write(DIVISOR_HIGH));
        ops.push(self.line_ctrl.write(LINE_CHAR8));
        ops.push(self.fifo_ctrl.write(FIFO_INIT));
        ops.push(self.modem_ctrl.write(MODEM_INIT));
        ops.push(self.int_en.write(INTERRUPT_RECEIVED));
        assert(ops@ =~= line_init_program(self.base()));
        ops
    }

    /// The poll: a read of the line status register.
    pub fn line_sts(&self) -> (op: PortOp)
        ensures
            valid_base(self.base()),
            op == in8((self.base() + 5) as u16),
    {
        proof {
            use_type_invariant(self);
        }
        self.line_sts.read()
    }

    /// The raw bytes to send for `data`, in order; each goes out through
    /// `send_raw`.
    pub fn send(&self, data: u8) -> (bytes: Vec<u8>)
        ensures
            bytes@ == echo_of(data),
    {
        let mut bytes: Vec<u8> = Vec::new();
        if data == 8 || data == 0x7f {
            bytes.push(0x08);
            bytes.push(0x20);
            bytes.push(0x08);
        } else {
            bytes.push(data);
        }
        assert(bytes@ =~= echo_of(data));
        bytes
    }

    /// The next transfer in sending the raw byte `data`, given the line
    /// status that the last poll read: the write of `data` once the
    /// transmitter is empty, one more poll until then.
    ///
    /// There is no limit on the polls: a UART that never reports its
    /// transmitter empty is polled forever.
    pub fn send_raw(&self, data: u8, status: u8) -> (op: PortOp)
        ensures
            op == if output_empty(status) {
                out8(self.base(), data)
            } else {
                in8((self.base() + 5) as u16)
            },
    {
        if status & STATUS_OUTPUT_EMPTY != 0 {
            self.data.write(data)
        } else {
            self.line_sts()
        }
    }

    /// The next transfer in receiving a byte, given the line status that the
    /// last poll read: the read of the data register once a byte waits, one
    /// more poll until then.
    ///
    /// There is no limit on the polls: a line on which no byte arrives is
    /// polled forever.
    pub fn receive(&self, status: u8) -> (op: PortOp)
        ensures
            op == if input_full(status) {
                in8(self.base())
            } else {
                in8((self.base() + 5) as u16)
            },
    {
        if status & STATUS_INPUT_FULL != 0 {
            self.data.read()
        } else {
            self.line_sts()
        }
    }

    /// The raw bytes to send for `text`, in order: those of `send` for each
    /// of its bytes.
    pub fn write_str(&self, text: &[u8]) -> (bytes: Vec<u8>)
        ensures
            bytes@ == echo_of_text(text@),
    {
        let mut bytes: Vec<u8> = Vec::new();
        let mut at: usize = 0;
        while at < text.len()
            invariant
                at <= text.len(),
                bytes@ == echo_of_text(text@.take(at as int)),
            decreases text.len() - at,
        {
            let mut next = self.send(text[at]);
            proof {
                assert(text@.take(at + 1).drop_last() =~= text@.take(at as int));
            }
            bytes.append(&mut next);
            at += 1;
        }
        assert(text@.take(at as int) =~= text@);
        bytes
    }
}

} // verus!
