//! Driver for the cascaded pair of 8259 interrupt controllers.
//!
//! Each operation of `PIC` yields the transfers that carry it out, in the
//! order in which they must reach the controllers. Operations that read
//! registers yield the reads; the values come back in the same order,
//! primary controller first.

use crate::ports::{first_pic, in8, out8, second_pic, PortOp};
use vstd::prelude::*;

verus! {

/// The driver for the primary/secondary controller pair.
pub struct PIC {}

/// Offset of the command register within a controller's port range.
pub const COMMAND: u16 = 0;

/// Offset of the data register (the interrupt mask register once the
/// controller operates) within a controller's port range.
pub const DATA: u16 = 1;

pub const COMMAND_GET_IRR: u8 = 0x0a;

pub const COMMAND_GET_ISR: u8 = 0x0b;

pub const COMMAND_INIT: u8 = 0x10;

pub const COMMAND_EOI: u8 = 0x20;

pub const ICW1_HAS_ICW4: u8 = 0x01;

/// Third initialization word of the primary: the secondary hangs on IRQ 2.
pub const ICW3_SECONDARY_ON_IRQ2: u8 = 0x04;

/// Third initialization word of the secondary: its cascade identity.
pub const ICW3_CASCADE_ID: u8 = 0x02;

pub const ICW4_X86: u8 = 0x01;

/// The lowest vector offset that leaves the CPU exception vectors alone.
pub const MIN_VECTOR_OFFSET: u8 = 32;

/// The highest vector offset for which the secondary's offset still fits a
/// byte.
pub const MAX_VECTOR_OFFSET: u8 = 247;

/// The initialization of both controllers for vector offset `offset`: the
/// four initialization words, each sent to the primary and then to the
/// secondary, followed by an all-ones mask for each.
pub open spec fn init_program(offset: u8) -> Seq<PortOp> {
    seq![
        out8(0x20, 0x11),
        out8(0xa0, 0x11),
        out8(0x21, offset),
        out8(0xa1, (offset + 8) as u8),
        out8(0x21, 0x04),
        out8(0xa1, 0x02),
        out8(0x21, 0x01),
        out8(0xa1, 0x01),
        out8(0x21, 0xff),
        out8(0xa1, 0xff),
    ]
}

/// Writing the mask pair `(primary_imr, secondary_imr)`, primary first.
pub open spec fn set_mask_program(primary_imr: u8, secondary_imr: u8) -> Seq<PortOp> {
    seq![out8(0x21, primary_imr), out8(0xa1, secondary_imr)]
}

/// Reading the mask pair, primary first.
pub open spec fn get_mask_program() -> Seq<PortOp> {
    seq![in8(0x21), in8(0xa1)]
}

/// Selecting a status register with `select` on both controllers, then
/// reading it back from each, primary first.
pub open spec fn status_program(select: u8) -> Seq<PortOp> {
    seq![out8(0x20, select), out8(0xa0, select), in8(0x20), in8(0xa0)]
}

/// Acknowledging the interrupt on line `vector`: the secondary first when
/// the line is one of its own, the primary always and last.
pub open spec fn eoi_program(vector: u8) -> Seq<PortOp> {
    if vector >= 8 {
        seq![out8(0xa0, 0x20), out8(0x20, 0x20)]
    } else {
        seq![out8(0x20, 0x20)]
    }
}

/// The mask pair `(primary_imr, secondary_imr)` with line `vector` unmasked.
/// Unmasking a line of the secondary also unmasks the cascade line, bit 2
/// of the primary.
pub open spec fn unmasked(primary_imr: u8, secondary_imr: u8, vector: u8) -> (u8, u8)
    recommends
        vector < 16,
{
    if vector >= 8 {
        (primary_imr & !4u8, secondary_imr & !(1u8 << ((vector - 8) as u8)))
    } else {
        (primary_imr & !(1u8 << vector), secondary_imr)
    }
}

/// The mask pair `(primary_imr, secondary_imr)` with line `vector` masked.
pub open spec fn masked(primary_imr: u8, secondary_imr: u8, vector: u8) -> (u8, u8)
    recommends
        vector < 16,
{
    if vector >= 8 {
        (primary_imr, secondary_imr | (1u8 << ((vector - 8) as u8)))
    } else {
        (primary_imr | (1u8 << vector), secondary_imr)
    }
}

/// Whether line `vector` is masked in the pair `(primary_imr, secondary_imr)`.
pub open spec fn is_masked(primary_imr: u8, secondary_imr: u8, vector: u8) -> bool
    recommends
        vector < 16,
{
    if vector >= 8 {
        secondary_imr & (1u8 << ((vector - 8) as u8)) != 0
    } else {
        primary_imr & (1u8 << vector) != 0
    }
}

impl PIC {
    /// Tests whether `offset` may be handed to `init`.
    pub fn valid_offset(offset: u8) -> (valid: bool)
        ensures
            valid == (32 <= offset <= 247),
    {
        MIN_VECTOR_OFFSET <= offset && offset <= MAX_VECTOR_OFFSET
    }

    /// Initializes both controllers in the primary/secondary arrangement,
    /// delivering IRQ 0 at interrupt vector `offset` and IRQ 8 at
    /// `offset + 8`, and leaves every line masked.
    pub fn init(offset: u8) -> (ops: Vec<PortOp>)
        requires
            32 <= offset <= 247,
        ensures
            ops@ == init_program(offset),
    {
        let first = first_pic();
        let second = second_pic();
        assert(COMMAND_INIT | ICW1_HAS_ICW4 == 0x11) by (bit_vector);
        let mut ops: Vec<PortOp> = Vec::new();
        ops.push(first.write(COMMAND, COMMAND_INIT | ICW1_HAS_ICW4));
        ops.push(second.write(COMMAND, COMMAND_INIT | ICW1_HAS_ICW4));
        ops.push(first.write(DATA, offset));
        ops.push(second.write(DATA, offset + 8));
        ops.push(first.write(DATA, ICW3_SECONDARY_ON_IRQ2));
        ops.push(second.write(DATA, ICW3_CASCADE_ID));
        ops.push(first.write(DATA, ICW4_X86));
        ops.push(second.write(DATA, ICW4_X86));
        ops.push(first.write(DATA, 0xff));
        ops.push(second.write(DATA, 0xff));
        assert(ops@ =~= init_program(offset));
        ops
    }

    /// Masks every line of both controllers.
    pub fn disable() -> (ops: Vec<PortOp>)
        ensures
            ops@ == set_mask_program(0xff, 0xff),
    {
        PIC::set_mask(0xff, 0xff)
    }

    /// Acknowledges the interrupt on line `vector`, so that the controllers
    /// deliver further interrupts. The primary is told last, since the
    /// secondary reaches the CPU through it.
    pub fn eoi(vector: u8) -> (ops: Vec<PortOp>)
        requires
            vector < 16,
        ensures
            ops@ == eoi_program(vector),
    {
        let mut ops: Vec<PortOp> = Vec::new();
        if vector >= 8 {
            ops.push(second_pic().write(COMMAND, COMMAND_EOI));
        }
        ops.push(first_pic().write(COMMAND, COMMAND_EOI));
        assert(ops@ =~= eoi_program(vector));
        ops
    }

    /// Reads both interrupt mask registers. A set bit is a masked line.
    pub fn get_mask() -> (ops: Vec<PortOp>)
        ensures
            ops@ == get_mask_program(),
    {
        let mut ops: Vec<PortOp> = Vec::new();
        ops.push(first_pic().read(DATA));
        ops.push(second_pic().read(DATA));
        assert(ops@ =~= get_mask_program());
        ops
    }

    /// Writes both interrupt mask registers.
    pub fn set_mask(primary_imr: u8, secondary_imr: u8) -> (ops: Vec<PortOp>)
        ensures
            ops@ == set_mask_program(primary_imr, secondary_imr),
    {
        let mut ops: Vec<PortOp> = Vec::new();
        ops.push(first_pic().write(DATA, primary_imr));
        ops.push(second_pic().write(DATA, secondary_imr));
        assert(ops@ =~= set_mask_program(primary_imr, secondary_imr));
        ops
    }

    /// Reads both interrupt request registers: the lines that were raised
    /// and not yet delivered to the CPU.
    pub fn get_irr() -> (ops: Vec<PortOp>)
        ensures
            ops@ == status_program(0x0a),
    {
        PIC::get_status(COMMAND_GET_IRR)
    }

    /// Reads both in-service registers: the lines that were delivered to the
    /// CPU and not yet acknowledged.
    pub fn get_isr() -> (ops: Vec<PortOp>)
        ensures
            ops@ == status_program(0x0b),
    {
        PIC::get_status(COMMAND_GET_ISR)
    }

    fn get_status(select: u8) -> (ops: Vec<PortOp>)
        ensures
            ops@ == status_program(select),
    {
        let first = first_pic();
        let second = second_pic();
        let mut ops: Vec<PortOp> = Vec::new();
        ops.push(first.write(COMMAND, select));
        ops.push(second.write(COMMAND, select));
        ops.push(first.read(COMMAND));
        ops.push(second.read(COMMAND));
        assert(ops@ =~= status_program(select));
        ops
    }

    /// Unmasks line `vector`, given the mask pair that `get_mask` read.
    /// For a line of the secondary the cascade line is unmasked as well.
    ///
    /// The read of the masks and these writes are separate transfers: the
    /// caller keeps interrupts disabled from the one to the other, or a
    /// handler's change to the masks in between is lost.
    pub fn enable_irq(vector: u8, primary_imr: u8, secondary_imr: u8) -> (ops: Vec<PortOp>)
        requires
            vector < 16,
        ensures
            ops@ == set_mask_program(
                unmasked(primary_imr, secondary_imr, vector).0,
                unmasked(primary_imr, secondary_imr, vector).1,
            ),
    {
        let mut p: u8 = primary_imr;
        let mut s: u8 = secondary_imr;
        if vector >= 8 {
            s = s & !(1u8 << (vector - 8));
            p = p & !4u8;
        } else {
            p = p & !(1u8 << vector);
        }
        PIC::set_mask(p, s)
    }

    /// Masks line `vector`, given the mask pair that `get_mask` read. The
    /// cascade line is left as it is. As for `enable_irq`, the caller keeps
    /// interrupts disabled between the read of the masks and these writes.
    pub fn disable_irq(vector: u8, primary_imr: u8, secondary_imr: u8) -> (ops: Vec<PortOp>)
        requires
            vector < 16,
        ensures
            ops@ == set_mask_program(
                masked(primary_imr, secondary_imr, vector).0,
                masked(primary_imr, secondary_imr, vector).1,
            ),
    {
        let mut p: u8 = primary_imr;
        let mut s: u8 = secondary_imr;
        if vector >= 8 {
            s = s | (1u8 << (vector - 8));
        } else {
            p = p | (1u8 << vector);
        }
        PIC::set_mask(p, s)
    }
}

} // verus!
