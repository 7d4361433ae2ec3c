//! A register-level model of the cascaded 8259 pair, and the laws that the
//! driver's programs obey on it.

use crate::pic::{
    get_mask_program, init_program, is_masked, masked, set_mask_program, status_program, unmasked,
    PIC,
};
use crate::ports::PortOp;
use vstd::prelude::*;

verus! {

/// The software-visible state of one 8259 controller.
#[derive(Clone, Copy, Debug, PartialEq, Eq, Structural)]
pub struct Controller {
    /// Interrupt mask register: a set bit masks the line.
    pub imr: u8,
    /// Interrupt request register: lines raised and not yet delivered.
    pub irr: u8,
    /// In-service register: lines delivered and not yet acknowledged.
    pub isr: u8,
    /// The interrupt vector at which line 0 is delivered.
    pub vector_offset: u8,
    /// The cascade wiring word received during initialization.
    pub cascade: u8,
    /// The operating-mode word received during initialization.
    pub mode: u8,
    /// Initialization words still owed on the data register: 3 after the
    /// init command, 0 once the controller operates.
    pub awaiting: u8,
    /// Whether a read of the command register returns the in-service
    /// register (else the request register).
    pub reads_isr: bool,
}

impl Controller {
    /// The state after `value` is written to the register at offset `reg`
    /// (0 is the command register, anything else the data register).
    ///
    /// Of the command bytes the model decodes the four that the driver
    /// sends: start of initialization with a fourth word to come (which also
    /// clears the mask), the two status selections, and the end of interrupt
    /// that retires the in-service line of highest priority. The data
    /// register takes the three outstanding initialization words first and
    /// is the mask register after that.
    pub open spec fn written(self, reg: u16, value: u8) -> Controller {
        if reg == 0 {
            if value == 0x11 {
                Controller { imr: 0, awaiting: 3, reads_isr: false, ..self }
            } else if value == 0x0a {
                Controller { reads_isr: false, ..self }
            } else if value == 0x0b {
                Controller { reads_isr: true, ..self }
            } else if value == 0x20 && self.isr != 0 {
                Controller { isr: self.isr & ((self.isr - 1) as u8), ..self }
            } else {
                self
            }
        } else if self.awaiting == 3 {
            Controller { vector_offset: value, awaiting: 2, ..self }
        } else if self.awaiting == 2 {
            Controller { cascade: value, awaiting: 1, ..self }
        } else if self.awaiting == 1 {
            Controller { mode: value, awaiting: 0, ..self }
        } else {
            Controller { imr: value, ..self }
        }
    }

    /// The value that a read of the register at offset `reg` returns.
    pub open spec fn reading(self, reg: u16) -> u8 {
        if reg != 0 {
            self.imr
        } else if self.reads_isr {
            self.isr
        } else {
            self.irr
        }
    }

    /// A controller that has never been initialized and has no line raised.
    pub fn new() -> (fresh: Controller)
        ensures
            fresh == (Controller {
                imr: 0,
                irr: 0,
                isr: 0,
                vector_offset: 0,
                cascade: 0,
                mode: 0,
                awaiting: 0,
                reads_isr: false,
            }),
    {
        Controller {
            imr: 0,
            irr: 0,
            isr: 0,
            vector_offset: 0,
            cascade: 0,
            mode: 0,
            awaiting: 0,
            reads_isr: false,
        }
    }

    /// Writes `value` to the register at offset `reg`.
    pub fn write(&mut self, reg: u16, value: u8)
        ensures
            *final(self) == old(self).written(reg, value),
    {
        if reg == 0 {
            if value == 0x11 {
                self.imr = 0;
                self.awaiting = 3;
                self.reads_isr = false;
            } else if value == 0x0a {
                self.reads_isr = false;
            } else if value == 0x0b {
                self.reads_isr = true;
            } else if value == 0x20 && self.isr != 0 {
                self.isr = self.isr & (self.isr - 1);
            }
        } else if self.awaiting == 3 {
            self.vector_offset = value;
            self.awaiting = 2;
        } else if self.awaiting == 2 {
            self.cascade = value;
            self.awaiting = 1;
        } else if self.awaiting == 1 {
            self.mode = value;
            self.awaiting = 0;
        } else {
            self.imr = value;
        }
    }

    /// Reads the register at offset `reg`.
    pub fn read(&self, reg: u16) -> (value: u8)
        ensures
            value == self.reading(reg),
    {
        if reg != 0 {
            self.imr
        } else if self.reads_isr {
            self.isr
        } else {
            self.irr
        }
    }
}

/// The primary and the secondary controller at their fixed addresses.
#[derive(Clone, Copy, Debug, PartialEq, Eq, Structural)]
pub struct PicModel {
    pub primary: Controller,
    pub secondary: Controller,
}

impl PicModel {
    /// Both controllers take mask writes on their data registers.
    pub open spec fn operating(self) -> bool {
        self.primary.awaiting == 0 && self.secondary.awaiting == 0
    }

    /// The state after one transfer, and the byte it read if it was a byte
    /// read. Ports outside the two controllers read as `0xff` and ignore
    /// writes; transfers of other widths reach neither controller.
    pub open spec fn step(self, op: PortOp) -> (PicModel, Option<u8>) {
        match op {
            PortOp::Out8 { port, value } => {
                if port == 0x20 || port == 0x21 {
                    (
                        PicModel {
                            primary: self.primary.written((port - 0x20) as u16, value),
                            ..self
                        },
                        None,
                    )
                } else if port == 0xa0 || port == 0xa1 {
                    (
                        PicModel {
                            secondary: self.secondary.written((port - 0xa0) as u16, value),
                            ..self
                        },
                        None,
                    )
                } else {
                    (self, None)
                }
            },
            PortOp::In8 { port } => {
                if port == 0x20 || port == 0x21 {
                    (self, Some(self.primary.reading((port - 0x20) as u16)))
                } else if port == 0xa0 || port == 0xa1 {
                    (self, Some(self.secondary.reading((port - 0xa0) as u16)))
                } else {
                    (self, Some(0xffu8))
                }
            },
            _ => (self, None),
        }
    }

    /// The state after the transfers `ops[at..]`, and `seen` extended by the
    /// bytes they read.
    pub open spec fn outcome_from(self, ops: Seq<PortOp>, at: int, seen: Seq<u8>) -> (
        PicModel,
        Seq<u8>,
    )
        decreases ops.len() - at,
    {
        if at < 0 || at >= ops.len() {
            (self, seen)
        } else {
            let (next, value) = self.step(ops[at]);
            next.outcome_from(
                ops,
                at + 1,
                match value {
                    Some(byte) => seen.push(byte),
                    None => seen,
                },
            )
        }
    }

    /// The state after the program `ops`, and the bytes it read, in order.
    pub open spec fn outcome(self, ops: Seq<PortOp>) -> (PicModel, Seq<u8>) {
        self.outcome_from(ops, 0, Seq::empty())
    }

    /// This state with the mask registers replaced by the given pair.
    pub open spec fn with_masks(self, primary_imr: u8, secondary_imr: u8) -> PicModel {
        PicModel {
            primary: Controller { imr: primary_imr, ..self.primary },
            secondary: Controller { imr: secondary_imr, ..self.secondary },
        }
    }

    /// The pair as it powers up: never initialized, no line raised.
    pub fn new() -> (fresh: PicModel)
        ensures
            fresh.operating(),
            fresh.primary.imr == 0,
            fresh.secondary.imr == 0,
    {
        PicModel { primary: Controller::new(), secondary: Controller::new() }
    }

    /// Carries out one transfer.
    pub fn execute(&mut self, op: PortOp) -> (value: Option<u8>)
        ensures
            (*final(self), value) == old(self).step(op),
    {
        match op {
            PortOp::Out8 { port, value } => {
                if port == 0x20 || port == 0x21 {
                    self.primary.write(port - 0x20, value);
                } else if port == 0xa0 || port == 0xa1 {
                    self.secondary.write(port - 0xa0, value);
                }
                None
            },
            PortOp::In8 { port } => {
                if port == 0x20 || port == 0x21 {
                    Some(self.primary.read(port - 0x20))
                } else if port == 0xa0 || port == 0xa1 {
                    Some(self.secondary.read(port - 0xa0))
                } else {
                    Some(0xffu8)
                }
            },
            _ => None,
        }
    }

    /// Carries out the program `ops` and returns the bytes it read.
    pub fn run(&mut self, ops: &Vec<PortOp>) -> (values: Vec<u8>)
        ensures
            (*final(self), values@) == old(self).outcome(ops@),
    {
        let mut values: Vec<u8> = Vec::new();
        let mut at: usize = 0;
        while at < ops.len()
            invariant
                at <= ops.len(),
                old(self).outcome(ops@) == self.outcome_from(ops@, at as int, values@),
            decreases ops.len() - at,
        {
            match self.execute(ops[at]) {
                Some(byte) => {
                    values.push(byte);
                },
                None => {},
            }
            at += 1;
        }
        values
    }
}

impl PicModel {
    /// Reads the mask pair through the driver's `get_mask`.
    pub fn get_mask(&mut self) -> (masks: (u8, u8))
        ensures
            *final(self) == *old(self),
            masks == (old(self).primary.imr, old(self).secondary.imr),
    {
        proof {
            lemma_get_mask_reads_masks(*self);
        }
        let read = self.run(&PIC::get_mask());
        (read[0], read[1])
    }

    /// Unmasks line `vector` through the driver: reads the masks, then
    /// writes the pair that `enable_irq` makes of them.
    pub fn enable_irq(&mut self, vector: u8)
        requires
            old(self).operating(),
            vector < 16,
        ensures
            *final(self) == old(self).with_masks(
                unmasked(old(self).primary.imr, old(self).secondary.imr, vector).0,
                unmasked(old(self).primary.imr, old(self).secondary.imr, vector).1,
            ),
    {
        let (p, s) = self.get_mask();
        proof {
            let on = unmasked(p, s, vector);
            lemma_set_mask_writes_masks(*self, on.0, on.1);
        }
        let _ = self.run(&PIC::enable_irq(vector, p, s));
    }

    /// Masks line `vector` through the driver: reads the masks, then writes
    /// the pair that `disable_irq` makes of them.
    pub fn disable_irq(&mut self, vector: u8)
        requires
            old(self).operating(),
            vector < 16,
        ensures
            *final(self) == old(self).with_masks(
                masked(old(self).primary.imr, old(self).secondary.imr, vector).0,
                masked(old(self).primary.imr, old(self).secondary.imr, vector).1,
            ),
    {
        let (p, s) = self.get_mask();
        proof {
            let off = masked(p, s, vector);
            lemma_set_mask_writes_masks(*self, off.0, off.1);
        }
        let _ = self.run(&PIC::disable_irq(vector, p, s));
    }
}

/// On an operating pair, `set_mask` replaces the two mask registers and
/// nothing else, and reads nothing.
pub proof fn lemma_set_mask_writes_masks(model: PicModel, primary_imr: u8, secondary_imr: u8)
    requires
        model.operating(),
    ensures
        model.outcome(set_mask_program(primary_imr, secondary_imr)).0 == model.with_masks(
            primary_imr,
            secondary_imr,
        ),
        model.outcome(set_mask_program(primary_imr, secondary_imr)).1 == Seq::<u8>::empty(),
{
    reveal_with_fuel(PicModel::outcome_from, 4);
}

/// A mask pair written with `set_mask` is the pair that `get_mask` reads
/// back.
pub proof fn lemma_mask_round_trip(model: PicModel, primary_imr: u8, secondary_imr: u8)
    requires
        model.operating(),
    ensures
        model.outcome(set_mask_program(primary_imr, secondary_imr)).0.outcome(
            get_mask_program(),
        ).1 == seq![primary_imr, secondary_imr],
        model.outcome(set_mask_program(primary_imr, secondary_imr)).0.operating(),
{
    reveal_with_fuel(PicModel::outcome_from, 4);
    let written = model.outcome(set_mask_program(primary_imr, secondary_imr)).0;
    assert(written.primary.imr == primary_imr);
    assert(written.secondary.imr == secondary_imr);
    assert(written.outcome(get_mask_program()).1 =~= seq![primary_imr, secondary_imr]);
}

/// Whatever state the pair is in, initialization leaves both controllers
/// operating, remapped to `offset` and `offset + 8`, wired as primary and
/// secondary, and with every line masked.
pub proof fn lemma_init_masks_all(model: PicModel, offset: u8)
    requires
        32 <= offset <= 247,
    ensures
        ({
            let ready = model.outcome(init_program(offset)).0;
            &&& ready.operating()
            &&& ready.primary.imr == 0xff
            &&& ready.secondary.imr == 0xff
            &&& ready.primary.vector_offset == offset
            &&& ready.secondary.vector_offset == offset + 8
            &&& ready.primary.cascade == 0x04
            &&& ready.secondary.cascade == 0x02
            &&& ready.primary.mode == 0x01
            &&& ready.secondary.mode == 0x01
        }),
        model.outcome(init_program(offset)).1 == Seq::<u8>::empty(),
{
    reveal_with_fuel(PicModel::outcome_from, 12);
}

/// `get_mask` reads the two mask registers, primary
/// first, and changes nothing.
pub proof fn lemma_get_mask_reads_masks(model: PicModel)
    ensures
        model.outcome(get_mask_program()).0 == model,
        model.outcome(get_mask_program()).1 == seq![model.primary.imr, model.secondary.imr],
{
    reveal_with_fuel(PicModel::outcome_from, 4);
    assert(model.outcome(get_mask_program()).1 =~= seq![
        model.primary.imr,
        model.secondary.imr,
    ]);
}

/// `get_irr` reads the two request registers and `get_isr` the two
/// in-service registers, primary first; neither touches a mask.
pub proof fn lemma_status_reads(model: PicModel)
    ensures
        model.outcome(status_program(0x0a)).1 == seq![model.primary.irr, model.secondary.irr],
        model.outcome(status_program(0x0b)).1 == seq![model.primary.isr, model.secondary.isr],
        model.outcome(status_program(0x0a)).0.primary.imr == model.primary.imr,
        model.outcome(status_program(0x0a)).0.secondary.imr == model.secondary.imr,
        model.outcome(status_program(0x0b)).0.primary.imr == model.primary.imr,
        model.outcome(status_program(0x0b)).0.secondary.imr == model.secondary.imr,
{
    reveal_with_fuel(PicModel::outcome_from, 6);
    assert(model.outcome(status_program(0x0a)).1 =~= seq![
        model.primary.irr,
        model.secondary.irr,
    ]);
    assert(model.outcome(status_program(0x0b)).1 =~= seq![
        model.primary.isr,
        model.secondary.isr,
    ]);
}

/// Unmasking a masked line and masking it again gives back the mask pair
/// from before, except that for a line of the secondary the cascade bit
/// (bit 2 of the primary) stays cleared.
pub proof fn lemma_enable_then_disable(primary_imr: u8, secondary_imr: u8, vector: u8)
    requires
        vector < 16,
        is_masked(primary_imr, secondary_imr, vector),
    ensures
        ({
            let on = unmasked(primary_imr, secondary_imr, vector);
            let off = masked(on.0, on.1, vector);
            if vector >= 8 {
                off == (primary_imr & !4u8, secondary_imr)
            } else {
                off == (primary_imr, secondary_imr)
            }
        }),
{
    if vector >= 8 {
        let line: u8 = (vector - 8) as u8;
        assert((secondary_imr & !(1u8 << line)) | (1u8 << line) == secondary_imr)
            by (bit_vector)
            requires
                line < 8,
                secondary_imr & (1u8 << line) != 0,
        ;
    } else {
        assert((primary_imr & !(1u8 << vector)) | (1u8 << vector) == primary_imr)
            by (bit_vector)
            requires
                vector < 8,
                primary_imr & (1u8 << vector) != 0,
        ;
    }
}

/// The same on the model: the `enable_irq` program for a masked line,
/// followed by the `disable_irq` program for the masks then in force, leaves
/// the mask registers as they were, but for the cascade bit.
pub proof fn lemma_enable_then_disable_on_model(model: PicModel, vector: u8)
    requires
        model.operating(),
        vector < 16,
        is_masked(model.primary.imr, model.secondary.imr, vector),
    ensures
        ({
            let p = model.primary.imr;
            let s = model.secondary.imr;
            let on = unmasked(p, s, vector);
            let enabled = model.outcome(set_mask_program(on.0, on.1)).0;
            let off = masked(enabled.primary.imr, enabled.secondary.imr, vector);
            let disabled = enabled.outcome(set_mask_program(off.0, off.1)).0;
            &&& !is_masked(enabled.primary.imr, enabled.secondary.imr, vector)
            &&& disabled.secondary.imr == s
            &&& disabled.primary.imr == if vector >= 8 {
                p & !4u8
            } else {
                p
            }
        }),
{
    reveal_with_fuel(PicModel::outcome_from, 4);
    lemma_enable_then_disable(model.primary.imr, model.secondary.imr, vector);
    let p = model.primary.imr;
    let s = model.secondary.imr;
    if vector >= 8 {
        let line: u8 = (vector - 8) as u8;
        assert((s & !(1u8 << line)) & (1u8 << line) == 0) by (bit_vector)
            requires
                line < 8,
        ;
    } else {
        assert((p & !(1u8 << vector)) & (1u8 << vector) == 0) by (bit_vector)
            requires
                vector < 8,
        ;
    }
}

/// The cascade line is unmasked whenever a line of the secondary is.
pub open spec fn cascade_open(primary_imr: u8, secondary_imr: u8) -> bool {
    secondary_imr != 0xff ==> primary_imr & 4u8 == 0
}

/// Unmasking any line keeps the cascade line open, and opens it for a line
/// of the secondary whatever the masks were. Masking any line but the
/// cascade line itself keeps it open too.
pub proof fn lemma_cascade_stays_open(primary_imr: u8, secondary_imr: u8, vector: u8)
    requires
        vector < 16,
    ensures
        vector >= 8 ==> unmasked(primary_imr, secondary_imr, vector).0 & 4u8 == 0,
        cascade_open(primary_imr, secondary_imr) ==> cascade_open(
            unmasked(primary_imr, secondary_imr, vector).0,
            unmasked(primary_imr, secondary_imr, vector).1,
        ),
        cascade_open(primary_imr, secondary_imr) && vector != 2 ==> cascade_open(
            masked(primary_imr, secondary_imr, vector).0,
            masked(primary_imr, secondary_imr, vector).1,
        ),
        cascade_open(0xff, 0xff),
{
    let p = primary_imr;
    let s = secondary_imr;
    assert((p & !4u8) & 4u8 == 0) by (bit_vector);
    if vector >= 8 {
        let line: u8 = (vector - 8) as u8;
        assert(s | (1u8 << line) != 0xff ==> s != 0xff) by (bit_vector)
            requires
                line < 8,
        ;
    } else {
        assert(p & 4u8 == 0 ==> (p & !(1u8 << vector)) & 4u8 == 0) by (bit_vector)
            requires
                vector < 8,
        ;
        assert(p & 4u8 == 0 && vector != 2 ==> (p | (1u8 << vector)) & 4u8 == 0)
            by (bit_vector)
            requires
                vector < 8,
        ;
    }
}

} // verus!
