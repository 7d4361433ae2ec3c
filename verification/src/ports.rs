//! Port handles: a fixed 16-bit address paired with a fixed transfer width.

use core::marker::PhantomData;
use vstd::prelude::*;

verus! {

/// A single transfer across the I/O address space.
///
/// An `In*` transfer reads one value of the given width from `port`; an
/// `Out*` transfer writes `value` to `port`.
#[derive(Clone, Copy, Debug, PartialEq, Eq, Structural)]
#[allow(inconsistent_fields)]
pub enum PortOp {
    In8 { port: u16 },
    In16 { port: u16 },
    In32 { port: u16 },
    Out8 { port: u16, value: u8 },
    Out16 { port: u16, value: u16 },
    Out32 { port: u16, value: u32 },
}

/// A byte write to `port`.
pub open spec fn out8(port: u16, value: u8) -> PortOp {
    PortOp::Out8 { port, value }
}

/// A byte read from `port`.
pub open spec fn in8(port: u16) -> PortOp {
    PortOp::In8 { port }
}

/// A handle to one hardware register; `T` fixes the width of every transfer
/// through it.
#[derive(Debug, PartialEq, Eq)]
pub struct Port<T> {
    port: u16,
    unused: PhantomData<T>,
}

impl<T> Port<T> {
    /// The address this handle is bound to.
    pub closed spec fn address(&self) -> u16 {
        self.port
    }

    pub fn new(port: u16) -> (handle: Port<T>)
        ensures
            handle.address() == port,
    {
        Port { port: port, unused: PhantomData }
    }

    /// The address this handle is bound to.
    pub fn port(&self) -> (port: u16)
        ensures
            port == self.address(),
    {
        self.port
    }
}

impl<T> Clone for Port<T> {
    fn clone(&self) -> (copy: Port<T>)
        ensures
            copy.address() == self.address(),
    {
        Port { port: self.port, unused: PhantomData }
    }
}

impl<T> Copy for Port<T> {

}

impl Port<u8> {
    /// The transfer that reads one byte from this register.
    pub fn read(&self) -> (op: PortOp)
        ensures
            op == (PortOp::In8 { port: self.address() }),
    {
        PortOp::In8 { port: self.port }
    }

    /// The transfer that writes `value` to this register.
    pub fn write(&self, value: u8) -> (op: PortOp)
        ensures
            op == (PortOp::Out8 { port: self.address(), value }),
    {
        PortOp::Out8 { port: self.port, value }
    }
}

impl Port<u16> {
    /// The transfer that reads one 16-bit word from this register.
    pub fn read(&self) -> (op: PortOp)
        ensures
            op == (PortOp::In16 { port: self.address() }),
    {
        PortOp::In16 { port: self.port }
    }

    /// The transfer that writes the 16-bit `value` to this register.
    pub fn write(&self, value: u16) -> (op: PortOp)
        ensures
            op == (PortOp::Out16 { port: self.address(), value }),
    {
        PortOp::Out16 { port: self.port, value }
    }
}

impl Port<u32> {
    /// The transfer that reads one 32-bit word from this register.
    pub fn read(&self) -> (op: PortOp)
        ensures
            op == (PortOp::In32 { port: self.address() }),
    {
        PortOp::In32 { port: self.port }
    }

    /// The transfer that writes the 32-bit `value` to this register.
    pub fn write(&self, value: u32) -> (op: PortOp)
        ensures
            op == (PortOp::Out32 { port: self.address(), value }),
    {
        PortOp::Out32 { port: self.port, value }
    }
}

/// A family of `size` consecutive registers starting at address `start`.
pub struct PortRange<T> {
    start: u16,
    size: u16,
    unused: PhantomData<T>,
}

impl<T> PortRange<T> {
    /// The address of the first register of the range.
    pub closed spec fn base(&self) -> u16 {
        self.start
    }

    /// The number of registers in the range.
    pub closed spec fn count(&self) -> u16 {
        self.size
    }

    /// Whether `index` names a register of this range that lies inside the
    /// 16-bit I/O address space.
    pub open spec fn has(&self, index: u16) -> bool {
        index < self.count() && self.base() + index <= u16::MAX
    }

    pub fn new(start: u16, size: u16) -> (range: PortRange<T>)
        ensures
            range.base() == start,
            range.count() == size,
    {
        PortRange { start: start, size: size, unused: PhantomData }
    }

    /// Tests whether `index` may be handed to `port`, `read` or `write`.
    pub fn contains(&self, index: u16) -> (inside: bool)
        ensures
            inside == self.has(index),
    {
        index < self.size && index <= u16::MAX - self.start
    }

    /// The handle of the register at offset `index`.
    pub fn port(&self, index: u16) -> (handle: Port<T>)
        requires
            self.has(index),
        ensures
            handle.address() == self.base() + index,
    {
        Port::new(self.start + index)
    }
}

impl PortRange<u8> {
    /// The transfer that reads one byte from the register at offset `index`.
    pub fn read(&self, index: u16) -> (op: PortOp)
        requires
            self.has(index),
        ensures
            op == (PortOp::In8 { port: (self.base() + index) as u16 }),
    {
        let port: Port<u8> = self.port(index);
        port.read()
    }

    /// The transfer that writes `value` to the register at offset `index`.
    pub fn write(&self, index: u16, value: u8) -> (op: PortOp)
        requires
            self.has(index),
        ensures
            op == (PortOp::Out8 { port: (self.base() + index) as u16, value }),
    {
        let port: Port<u8> = self.port(index);
        port.write(value)
    }
}

impl PortRange<u16> {
    /// The transfer that reads one 16-bit word from the register at offset
    /// `index`.
    pub fn read(&self, index: u16) -> (op: PortOp)
        requires
            self.has(index),
        ensures
            op == (PortOp::In16 { port: (self.base() + index) as u16 }),
    {
        let port: Port<u16> = self.port(index);
        port.read()
    }

    /// The transfer that writes the 16-bit `value` to the register at offset
    /// `index`.
    pub fn write(&self, index: u16, value: u16) -> (op: PortOp)
        requires
            self.has(index),
        ensures
            op == (PortOp::Out16 { port: (self.base() + index) as u16, value }),
    {
        let port: Port<u16> = self.port(index);
        port.write(value)
    }
}

impl PortRange<u32> {
    /// The transfer that reads one 32-bit word from the register at offset
    /// `index`.
    pub fn read(&self, index: u16) -> (op: PortOp)
        requires
            self.has(index),
        ensures
            op == (PortOp::In32 { port: (self.base() + index) as u16 }),
    {
        let port: Port<u32> = self.port(index);
        port.read()
    }

    /// The transfer that writes the 32-bit `value` to the register at offset
    /// `index`.
    pub fn write(&self, index: u16, value: u32) -> (op: PortOp)
        requires
            self.has(index),
        ensures
            op == (PortOp::Out32 { port: (self.base() + index) as u16, value }),
    {
        let port: Port<u32> = self.port(index);
        port.write(value)
    }
}

/// Address of the primary interrupt controller's command register.
pub const FIRST_PIC_BASE: u16 = 0x20;

/// Address of the secondary interrupt controller's command register.
pub const SECOND_PIC_BASE: u16 = 0xa0;

/// The two registers (command, data) of the primary interrupt controller.
pub fn first_pic() -> (range: PortRange<u8>)
    ensures
        range.base() == 0x20,
        range.count() == 2,
{
    PortRange::new(FIRST_PIC_BASE, 2)
}

/// The two registers (command, data) of the secondary interrupt controller.
pub fn second_pic() -> (range: PortRange<u8>)
    ensures
        range.base() == 0xa0,
        range.count() == 2,
{
    PortRange::new(SECOND_PIC_BASE, 2)
}

} // verus!
