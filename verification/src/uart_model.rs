//! A register-level model of a 16550 UART whose transmitter and receiver
//! become ready only after a set number of status polls, and the polling
//! loops of the line driver run against it.

use crate::ports::PortOp;
use crate::serial::{
    echo_of, input_full, line_init_program, output_empty, valid_base, SerialPort,
};
use vstd::prelude::*;

verus! {

/// `a - b`, or 0 where `b` exceeds `a`.
pub open spec fn less(a: u64, b: nat) -> u64 {
    if a >= b {
        (a - b) as u64
    } else {
        0
    }
}

/// The line status byte of a UART whose transmitter is empty iff `tx_ready`
/// and whose receiver holds a byte iff `rx_ready`.
pub open spec fn status_byte(tx_ready: bool, rx_ready: bool) -> u8 {
    if tx_ready {
        if rx_ready {
            0x21
        } else {
            0x20
        }
    } else {
        if rx_ready {
            0x01
        } else {
            0x00
        }
    }
}

/// The status byte shows exactly the two readiness bits it was made from.
pub proof fn lemma_status_bits(tx_ready: bool, rx_ready: bool)
    ensures
        output_empty(status_byte(tx_ready, rx_ready)) == tx_ready,
        input_full(status_byte(tx_ready, rx_ready)) == rx_ready,
{
    assert(0x21u8 & 0x20u8 != 0 && 0x21u8 & 0x01u8 != 0) by (bit_vector);
    assert(0x20u8 & 0x20u8 != 0 && 0x20u8 & 0x01u8 == 0) by (bit_vector);
    assert(0x01u8 & 0x20u8 == 0 && 0x01u8 & 0x01u8 != 0) by (bit_vector);
    assert(0x00u8 & 0x20u8 == 0 && 0x00u8 & 0x01u8 == 0) by (bit_vector);
}

/// The state of the modelled UART.
pub struct LineState {
    /// Address of the data register.
    pub base: u16,
    pub interrupt_enable: u8,
    pub fifo_control: u8,
    pub line_control: u8,
    pub modem_control: u8,
    pub divisor_low: u8,
    pub divisor_high: u8,
    /// Status polls that will still report the transmitter busy.
    pub tx_busy: u64,
    /// The value `tx_busy` takes after each byte the transmitter accepts.
    pub tx_delay: u64,
    /// Status polls that will still report no received byte.
    pub rx_idle: u64,
    /// Reads of the line status register so far (it stops at `u64::MAX`).
    pub status_reads: u64,
    /// The bytes the transmitter accepted, oldest first.
    pub sent: Seq<u8>,
    /// The bytes on their way to the receiver, next first.
    pub incoming: Seq<u8>,
}

impl LineState {
    /// Whether the divisor latch is open, so that the first two registers
    /// hold the divisor.
    pub open spec fn dlab(self) -> bool {
        self.line_control & 0x80u8 != 0
    }

    pub open spec fn tx_ready(self) -> bool {
        self.tx_busy == 0
    }

    pub open spec fn rx_ready(self) -> bool {
        self.rx_idle == 0 && self.incoming.len() > 0
    }

    /// The state after `value` is written to `port`. A byte written to the
    /// data register while the transmitter is busy is lost.
    pub open spec fn written(self, port: u16, value: u8) -> LineState {
        if port < self.base {
            self
        } else if port - self.base == 0 {
            if self.dlab() {
                LineState { divisor_low: value, ..self }
            } else if self.tx_ready() {
                LineState { sent: self.sent.push(value), tx_busy: self.tx_delay, ..self }
            } else {
                self
            }
        } else if port - self.base == 1 {
            if self.dlab() {
                LineState { divisor_high: value, ..self }
            } else {
                LineState { interrupt_enable: value, ..self }
            }
        } else if port - self.base == 2 {
            LineState { fifo_control: value, ..self }
        } else if port - self.base == 3 {
            LineState { line_control: value, ..self }
        } else if port - self.base == 4 {
            LineState { modem_control: value, ..self }
        } else {
            self
        }
    }

    /// The state after a status poll: one more read counted, one poll less
    /// to wait on either side.
    pub open spec fn polled(self) -> LineState {
        LineState {
            status_reads: if self.status_reads < u64::MAX {
                (self.status_reads + 1) as u64
            } else {
                self.status_reads
            },
            tx_busy: less(self.tx_busy, 1),
            rx_idle: less(self.rx_idle, 1),
            ..self
        }
    }

    /// The state after a byte read from `port`, and the byte read.
    pub open spec fn read(self, port: u16) -> (LineState, u8) {
        if port < self.base {
            (self, 0xffu8)
        } else if port - self.base == 0 {
            if self.dlab() {
                (self, self.divisor_low)
            } else if self.rx_ready() {
                (LineState { incoming: self.incoming.drop_first(), ..self }, self.incoming[0])
            } else {
                (self, 0u8)
            }
        } else if port - self.base == 1 {
            if self.dlab() {
                (self, self.divisor_high)
            } else {
                (self, self.interrupt_enable)
            }
        } else if port - self.base == 2 {
            (self, self.fifo_control)
        } else if port - self.base == 3 {
            (self, self.line_control)
        } else if port - self.base == 4 {
            (self, self.modem_control)
        } else if port - self.base == 5 {
            (self.polled(), status_byte(self.tx_ready(), self.rx_ready()))
        } else {
            (self, 0xffu8)
        }
    }

    /// The state after one transfer, and the byte it read if it was a byte
    /// read. Transfers of other widths do not reach the UART.
    pub open spec fn step(self, op: PortOp) -> (LineState, Option<u8>) {
        match op {
            PortOp::Out8 { port, value } => (self.written(port, value), None),
            PortOp::In8 { port } => (self.read(port).0, Some(self.read(port).1)),
            _ => (self, None),
        }
    }

    /// The state after the transfers `ops[at..]`, and `seen` extended by the
    /// bytes they read.
    pub open spec fn outcome_from(self, ops: Seq<PortOp>, at: int, seen: Seq<u8>) -> (
        LineState,
        Seq<u8>,
    )
        decreases ops.len() - at,
    {
        if at < 0 || at >= ops.len() {
            (self, seen)
        } else {
            let (next, value) = self.step(ops[at]);
            next.outcome_from(
                ops,
                at + 1,
                match value {
                    Some(byte) => seen.push(byte),
                    None => seen,
                },
            )
        }
    }

    /// The state after the program `ops`, and the bytes it read, in order.
    pub open spec fn outcome(self, ops: Seq<PortOp>) -> (LineState, Seq<u8>) {
        self.outcome_from(ops, 0, Seq::empty())
    }
}

/// The status polls that sending `data` costs from `state`: one more than
/// the transmitter is busy for, before each raw byte.
pub open spec fn send_polls(state: LineState, data: u8) -> nat {
    if data == 0x08 || data == 0x7f {
        (state.tx_busy + 1 + 2 * (state.tx_delay + 1)) as nat
    } else {
        (state.tx_busy + 1) as nat
    }
}

/// The modelled UART.
pub struct UartModel {
    pub base: u16,
    pub interrupt_enable: u8,
    pub fifo_control: u8,
    pub line_control: u8,
    pub modem_control: u8,
    pub divisor_low: u8,
    pub divisor_high: u8,
    pub tx_busy: u64,
    pub tx_delay: u64,
    pub rx_idle: u64,
    pub status_reads: u64,
    pub sent: Vec<u8>,
    pub incoming: Vec<u8>,
}

impl View for UartModel {
    type V = LineState;

    open spec fn view(&self) -> LineState {
        LineState {
            base: self.base,
            interrupt_enable: self.interrupt_enable,
            fifo_control: self.fifo_control,
            line_control: self.line_control,
            modem_control: self.modem_control,
            divisor_low: self.divisor_low,
            divisor_high: self.divisor_high,
            tx_busy: self.tx_busy,
            tx_delay: self.tx_delay,
            rx_idle: self.rx_idle,
            status_reads: self.status_reads,
            sent: self.sent@,
            incoming: self.incoming@,
        }
    }
}

impl UartModel {
    /// A UART at `base` with all registers zero, whose transmitter reports
    /// empty only after `tx_busy` status polls and whose receiver holds
    /// `incoming`, reported only after `rx_idle` status polls.
    pub fn new(base: u16, tx_busy: u64, rx_idle: u64, incoming: Vec<u8>) -> (uart: UartModel)
        ensures
            uart@ == (LineState {
                base,
                interrupt_enable: 0,
                fifo_control: 0,
                line_control: 0,
                modem_control: 0,
                divisor_low: 0,
                divisor_high: 0,
                tx_busy,
                tx_delay: 0,
                rx_idle,
                status_reads: 0,
                sent: Seq::empty(),
                incoming: incoming@,
            }),
            !uart@.dlab(),
    {
        assert(0u8 & 0x80u8 == 0) by (bit_vector);
        UartModel {
            base,
            interrupt_enable: 0,
            fifo_control: 0,
            line_control: 0,
            modem_control: 0,
            divisor_low: 0,
            divisor_high: 0,
            tx_busy,
            tx_delay: 0,
            rx_idle,
            status_reads: 0,
            sent: Vec::new(),
            incoming,
        }
    }

    fn write(&mut self, port: u16, value: u8)
        ensures
            final(self)@ == old(self)@.written(port, value),
    {
        if port < self.base {
            return ;
        }
        let reg: u16 = port - self.base;
        let dlab: bool = self.line_control & 0x80u8 != 0;
        if reg == 0 {
            if dlab {
                self.divisor_low = value;
            } else if self.tx_busy == 0 {
                self.sent.push(value);
                self.tx_busy = self.tx_delay;
            }
        } else if reg == 1 {
            if dlab {
                self.divisor_high = value;
            } else {
                self.interrupt_enable = value;
            }
        } else if reg == 2 {
            self.fifo_control = value;
        } else if reg == 3 {
            self.line_control = value;
        } else if reg == 4 {
            self.modem_control = value;
        }
    }

    fn read(&mut self, port: u16) -> (value: u8)
        ensures
            (final(self)@, value) == old(self)@.read(port),
    {
        if port < self.base {
            return 0xff;
        }
        let reg: u16 = port - self.base;
        let dlab: bool = self.line_control & 0x80u8 != 0;
        let tx_ready: bool = self.tx_busy == 0;
        let rx_ready: bool = self.rx_idle == 0 && self.incoming.len() > 0;
        if reg == 0 {
            if dlab {
                self.divisor_low
            } else if rx_ready {
                let byte: u8 = self.incoming.remove(0);
                assert(self.incoming@ =~= old(self).incoming@.drop_first());
                byte
            } else {
                0
            }
        } else if reg == 1 {
            if dlab {
                self.divisor_high
            } else {
                self.interrupt_enable
            }
        } else if reg == 2 {
            self.fifo_control
        } else if reg == 3 {
            self.line_control
        } else if reg == 4 {
            self.modem_control
        } else if reg == 5 {
            if self.status_reads < u64::MAX {
                self.status_reads = self.status_reads + 1;
            }
            if self.tx_busy > 0 {
                self.tx_busy = self.tx_busy - 1;
            }
            if self.rx_idle > 0 {
                self.rx_idle = self.rx_idle - 1;
            }
            if tx_ready {
                if rx_ready {
                    0x21
                } else {
                    0x20
                }
            } else {
                if rx_ready {
                    0x01
                } else {
                    0x00
                }
            }
        } else {
            0xff
        }
    }

    /// Carries out one transfer.
    pub fn execute(&mut self, op: PortOp) -> (value: Option<u8>)
        ensures
            (final(self)@, value) == old(self)@.step(op),
    {
        match op {
            PortOp::Out8 { port, value } => {
                self.write(port, value);
                None
            },
            PortOp::In8 { port } => Some(self.read(port)),
            _ => None,
        }
    }

    /// Carries out the program `ops` and returns the bytes it read.
    pub fn run(&mut self, ops: &Vec<PortOp>) -> (values: Vec<u8>)
        ensures
            (final(self)@, values@) == old(self)@.outcome(ops@),
    {
        let mut values: Vec<u8> = Vec::new();
        let mut at: usize = 0;
        while at < ops.len()
            invariant
                at <= ops.len(),
                old(self)@.outcome(ops@) == self@.outcome_from(ops@, at as int, values@),
            decreases ops.len() - at,
        {
            match self.execute(ops[at]) {
                Some(byte) => {
                    values.push(byte);
                },
                None => {},
            }
            at += 1;
        }
        values
    }

    /// Sends the raw byte `data` through `port`: polls the line status until
    /// the transmitter is empty, then writes the byte. A transmitter that is
    /// busy for `tx_busy` polls costs exactly `tx_busy + 1` status reads
    /// before the one write, and the byte is not lost.
    pub fn send_raw(&mut self, port: &SerialPort, data: u8)
        requires
            old(self)@.base == port.base(),
            !old(self)@.dlab(),
            old(self)@.status_reads + old(self)@.tx_busy < u64::MAX,
        ensures
            final(self)@ == (LineState {
                status_reads: (old(self)@.status_reads + old(self)@.tx_busy + 1) as u64,
                tx_busy: old(self)@.tx_delay,
                rx_idle: less(old(self)@.rx_idle, (old(self)@.tx_busy + 1) as nat),
                sent: old(self)@.sent.push(data),
                ..old(self)@
            }),
    {
        let ghost start = self@;
        let mut status: u8 = match self.execute(port.line_sts()) {
            Some(byte) => byte,
            None => 0,
        };
        let mut op = port.send_raw(data, status);
        proof {
            lemma_status_bits(start.tx_ready(), start.rx_ready());
        }
        while status & 0x20u8 == 0
            invariant
                start.base == port.base(),
                valid_base(port.base()),
                !start.dlab(),
                output_empty(status) ==> self@.tx_busy == 0 && self@.status_reads
                    == start.status_reads + start.tx_busy + 1,
                !output_empty(status) ==> self@.tx_busy < start.tx_busy && self@.status_reads
                    == start.status_reads + start.tx_busy - self@.tx_busy,
                self@ == (LineState {
                    status_reads: self@.status_reads,
                    tx_busy: self@.tx_busy,
                    rx_idle: less(start.rx_idle, (self@.status_reads - start.status_reads) as nat),
                    ..start
                }),
                start.status_reads + start.tx_busy < u64::MAX,
                op == if output_empty(status) {
                    PortOp::Out8 { port: port.base(), value: data }
                } else {
                    PortOp::In8 { port: (port.base() + 5) as u16 }
                },
            decreases self@.tx_busy + (if output_empty(status) { 0int } else { 1int }),
        {
            let ghost before = self@;
            status = match self.execute(op) {
                Some(byte) => byte,
                None => 0,
            };
            op = port.send_raw(data, status);
            proof {
                lemma_status_bits(before.tx_ready(), before.rx_ready());
            }
        }
        let _ = self.execute(op);
        assert(self@.sent =~= start.sent.push(data));
    }

    /// Sends `data` through `port` as a terminal expects it: backspace and
    /// DEL go out as backspace, space, backspace, every other byte as it is.
    pub fn send(&mut self, port: &SerialPort, data: u8)
        requires
            old(self)@.base == port.base(),
            !old(self)@.dlab(),
            old(self)@.status_reads + send_polls(old(self)@, data) < u64::MAX,
        ensures
            final(self)@ == (LineState {
                status_reads: (old(self)@.status_reads + send_polls(old(self)@, data)) as u64,
                tx_busy: old(self)@.tx_delay,
                rx_idle: less(old(self)@.rx_idle, send_polls(old(self)@, data)),
                sent: old(self)@.sent + echo_of(data),
                ..old(self)@
            }),
    {
        if data == 8 || data == 0x7f {
            self.send_raw(port, 0x08);
            self.send_raw(port, 0x20);
            self.send_raw(port, 0x08);
            assert(self@.sent =~= old(self)@.sent + echo_of(data));
        } else {
            self.send_raw(port, data);
            assert(self@.sent =~= old(self)@.sent + echo_of(data));
        }
    }

    /// Receives one byte through `port`: polls the line status until a byte
    /// waits, then reads it. A receiver that reports its byte after
    /// `rx_idle` polls costs exactly `rx_idle + 1` status reads before the
    /// one data read.
    pub fn receive(&mut self, port: &SerialPort) -> (byte: u8)
        requires
            old(self)@.base == port.base(),
            !old(self)@.dlab(),
            old(self)@.incoming.len() > 0,
            old(self)@.status_reads + old(self)@.rx_idle < u64::MAX,
        ensures
            byte == old(self)@.incoming[0],
            final(self)@ == (LineState {
                status_reads: (old(self)@.status_reads + old(self)@.rx_idle + 1) as u64,
                rx_idle: 0,
                tx_busy: less(old(self)@.tx_busy, (old(self)@.rx_idle + 1) as nat),
                incoming: old(self)@.incoming.drop_first(),
                ..old(self)@
            }),
    {
        let ghost start = self@;
        let mut status: u8 = match self.execute(port.line_sts()) {
            Some(byte) => byte,
            None => 0,
        };
        let mut op = port.receive(status);
        proof {
            lemma_status_bits(start.tx_ready(), start.rx_ready());
        }
        while status & 0x01u8 == 0
            invariant
                start.base == port.base(),
                valid_base(port.base()),
                !start.dlab(),
                start.incoming.len() > 0,
                input_full(status) ==> self@.rx_idle == 0 && self@.status_reads
                    == start.status_reads + start.rx_idle + 1,
                !input_full(status) ==> self@.rx_idle < start.rx_idle && self@.status_reads
                    == start.status_reads + start.rx_idle - self@.rx_idle,
                self@ == (LineState {
                    status_reads: self@.status_reads,
                    rx_idle: self@.rx_idle,
                    tx_busy: less(start.tx_busy, (self@.status_reads - start.status_reads) as nat),
                    ..start
                }),
                start.status_reads + start.rx_idle < u64::MAX,
                op == if input_full(status) {
                    PortOp::In8 { port: port.base() }
                } else {
                    PortOp::In8 { port: (port.base() + 5) as u16 }
                },
            decreases self@.rx_idle + (if input_full(status) { 0int } else { 1int }),
        {
            let ghost before = self@;
            status = match self.execute(op) {
                Some(byte) => byte,
                None => 0,
            };
            op = port.receive(status);
            proof {
                lemma_status_bits(before.tx_ready(), before.rx_ready());
            }
        }
        match self.execute(op) {
            Some(byte) => byte,
            None => 0,
        }
    }
}

/// Whatever the registers held, and whichever way the divisor latch stood,
/// line initialization leaves the divisor at 3 (38400 bps), the latch
/// closed with 8-N-1 framing, the FIFOs and modem lines set up, and only
/// the received-data interrupt enabled. It polls nothing and sends nothing
/// while the transmitter is busy.
pub proof fn lemma_line_init_configures(state: LineState)
    requires
        state.base <= u16::MAX - 5,
    ensures
        ({
            let ready = state.outcome(line_init_program(state.base)).0;
            &&& ready.divisor_low == 0x03
            &&& ready.divisor_high == 0x00
            &&& ready.line_control == 0x03
            &&& !ready.dlab()
            &&& ready.fifo_control == 0xc7
            &&& ready.modem_control == 0x0b
            &&& ready.interrupt_enable == 0x01
            &&& ready.status_reads == state.status_reads
            &&& ready.incoming == state.incoming
            &&& ready.base == state.base
        }),
        state.outcome(line_init_program(state.base)).1 == Seq::<u8>::empty(),
{
    reveal_with_fuel(LineState::outcome_from, 10);
    assert(0x80u8 & 0x80u8 != 0) by (bit_vector);
    assert(0x03u8 & 0x80u8 == 0) by (bit_vector);
}

} // verus!