use bare_io::pic::PIC;
use bare_io::pic_model::{Controller, PicModel};
use bare_io::ports::PortOp;

fn out(port: u16, value: u8) -> PortOp {
    PortOp::Out8 { port, value }
}

fn input(port: u16) -> PortOp {
    PortOp::In8 { port }
}

fn initialized() -> PicModel {
    let mut model = PicModel::new();
    model.run(&PIC::init(32));
    model
}

fn masks(model: &mut PicModel) -> (u8, u8) {
    let read = model.run(&PIC::get_mask());
    assert_eq!(read.len(), 2);
    (read[0], read[1])
}

#[test]
fn init_sends_the_four_words_then_masks_all() {
    assert_eq!(
        PIC::init(32),
        vec![
            out(0x20, 0x11),
            out(0xa0, 0x11),
            out(0x21, 32),
            out(0xa1, 40),
            out(0x21, 0x04),
            out(0xa1, 0x02),
            out(0x21, 0x01),
            out(0xa1, 0x01),
            out(0x21, 0xff),
            out(0xa1, 0xff),
        ]
    );
}

#[test]
fn init_offsets_at_the_limits() {
    assert!(!PIC::valid_offset(0));
    assert!(!PIC::valid_offset(31));
    assert!(PIC::valid_offset(32));
    assert!(PIC::valid_offset(247));
    assert!(!PIC::valid_offset(248));
    let ops = PIC::init(247);
    assert_eq!(ops[2], out(0x21, 247));
    assert_eq!(ops[3], out(0xa1, 255));
}

#[test]
fn init_leaves_every_line_masked() {
    let mut model = PicModel::new();
    let read = model.run(&PIC::init(32));
    assert!(read.is_empty());
    assert_eq!(model.primary.imr, 0xff);
    assert_eq!(model.secondary.imr, 0xff);
    assert_eq!(model.primary.vector_offset, 32);
    assert_eq!(model.secondary.vector_offset, 40);
    assert_eq!(model.primary.cascade, 0x04);
    assert_eq!(model.secondary.cascade, 0x02);
    assert_eq!(model.primary.mode, 0x01);
    assert_eq!(model.secondary.mode, 0x01);
    assert_eq!(model.primary.awaiting, 0);
    assert_eq!(model.secondary.awaiting, 0);
    assert_eq!(masks(&mut model), (0xff, 0xff));
}

#[test]
fn init_restarts_a_half_initialized_pair() {
    let mut model = PicModel::new();
    model.execute(out(0x20, 0x11));
    model.execute(out(0x21, 99));
    assert_eq!(model.primary.awaiting, 2);
    model.run(&PIC::init(0x70));
    assert_eq!(model.primary.vector_offset, 0x70);
    assert_eq!(model.secondary.vector_offset, 0x78);
    assert_eq!(masks(&mut model), (0xff, 0xff));
}

#[test]
fn disable_masks_both_controllers() {
    assert_eq!(PIC::disable(), vec![out(0x21, 0xff), out(0xa1, 0xff)]);
    let mut model = initialized();
    model.run(&PIC::set_mask(0x00, 0x00));
    model.run(&PIC::disable());
    assert_eq!(masks(&mut model), (0xff, 0xff));
}

#[test]
fn eoi_for_a_primary_line_goes_to_the_primary_only() {
    for vector in 0..8u8 {
        assert_eq!(PIC::eoi(vector), vec![out(0x20, 0x20)]);
    }
}

#[test]
fn eoi_for_a_secondary_line_goes_to_the_secondary_first() {
    for vector in 8..16u8 {
        assert_eq!(PIC::eoi(vector), vec![out(0xa0, 0x20), out(0x20, 0x20)]);
    }
}

#[test]
fn eoi_retires_the_line_in_service() {
    let mut model = initialized();
    model.primary.isr = 0b0000_0100;
    model.secondary.isr = 0b0010_0010;
    model.run(&PIC::eoi(9));
    assert_eq!(model.primary.isr, 0);
    assert_eq!(model.secondary.isr, 0b0010_0000);
    model.run(&PIC::eoi(3));
    assert_eq!(model.primary.isr, 0);
    assert_eq!(model.secondary.isr, 0b0010_0000);
}

#[test]
fn get_mask_reads_primary_then_secondary() {
    assert_eq!(PIC::get_mask(), vec![input(0x21), input(0xa1)]);
}

#[test]
fn set_mask_writes_primary_then_secondary() {
    assert_eq!(PIC::set_mask(0x12, 0x34), vec![out(0x21, 0x12), out(0xa1, 0x34)]);
}

#[test]
fn set_mask_then_get_mask_round_trips() {
    let mut model = initialized();
    for primary in 0..=255u8 {
        for secondary in [0x00u8, 0x01, 0x5a, 0x80, 0xa5, 0xfe, 0xff] {
            model.run(&PIC::set_mask(primary, secondary));
            assert_eq!(masks(&mut model), (primary, secondary));
            model.run(&PIC::set_mask(secondary, primary));
            assert_eq!(masks(&mut model), (secondary, primary));
        }
    }
}

#[test]
fn get_irr_and_get_isr_select_then_read() {
    assert_eq!(
        PIC::get_irr(),
        vec![out(0x20, 0x0a), out(0xa0, 0x0a), input(0x20), input(0xa0)]
    );
    assert_eq!(
        PIC::get_isr(),
        vec![out(0x20, 0x0b), out(0xa0, 0x0b), input(0x20), input(0xa0)]
    );
}

#[test]
fn get_irr_and_get_isr_read_their_registers() {
    let mut model = initialized();
    model.primary.irr = 0x11;
    model.secondary.irr = 0x22;
    model.primary.isr = 0x44;
    model.secondary.isr = 0x88;
    assert_eq!(model.run(&PIC::get_isr()), vec![0x44, 0x88]);
    assert_eq!(model.run(&PIC::get_irr()), vec![0x11, 0x22]);
    assert_eq!(masks(&mut model), (0xff, 0xff));
}

#[test]
fn enable_irq_clears_one_bit() {
    assert_eq!(PIC::enable_irq(0, 0xff, 0xff), vec![out(0x21, 0xfe), out(0xa1, 0xff)]);
    assert_eq!(PIC::enable_irq(7, 0xff, 0xff), vec![out(0x21, 0x7f), out(0xa1, 0xff)]);
    assert_eq!(PIC::enable_irq(1, 0x0f, 0x33), vec![out(0x21, 0x0d), out(0xa1, 0x33)]);
}

#[test]
fn enable_irq_on_the_secondary_opens_the_cascade() {
    assert_eq!(PIC::enable_irq(8, 0xff, 0xff), vec![out(0x21, 0xfb), out(0xa1, 0xfe)]);
    assert_eq!(PIC::enable_irq(15, 0xff, 0xff), vec![out(0x21, 0xfb), out(0xa1, 0x7f)]);
    assert_eq!(PIC::enable_irq(12, 0x04, 0x10), vec![out(0x21, 0x00), out(0xa1, 0x00)]);
}

#[test]
fn disable_irq_sets_one_bit() {
    assert_eq!(PIC::disable_irq(0, 0x00, 0x00), vec![out(0x21, 0x01), out(0xa1, 0x00)]);
    assert_eq!(PIC::disable_irq(7, 0x00, 0x00), vec![out(0x21, 0x80), out(0xa1, 0x00)]);
    assert_eq!(PIC::disable_irq(8, 0x00, 0x00), vec![out(0x21, 0x00), out(0xa1, 0x01)]);
    assert_eq!(PIC::disable_irq(15, 0xfb, 0x00), vec![out(0x21, 0xfb), out(0xa1, 0x80)]);
}

#[test]
fn enable_then_disable_restores_the_masks() {
    for start in [(0xffu8, 0xffu8), (0xfb, 0xff), (0xa5, 0xff), (0xff, 0x5a)] {
        for vector in 0..16u8 {
            let line_masked = if vector >= 8 {
                start.1 & (1 << (vector - 8)) != 0
            } else {
                start.0 & (1 << vector) != 0
            };
            if !line_masked {
                continue;
            }
            let mut model = initialized();
            model.run(&PIC::set_mask(start.0, start.1));
            let (p, s) = masks(&mut model);
            model.run(&PIC::enable_irq(vector, p, s));
            let (p, s) = masks(&mut model);
            model.run(&PIC::disable_irq(vector, p, s));
            let expected = if vector >= 8 { (start.0 & !4, start.1) } else { start };
            assert_eq!(masks(&mut model), expected);
        }
    }
}

#[test]
fn enabling_a_secondary_line_leaves_the_cascade_open() {
    let mut model = initialized();
    let (p, s) = masks(&mut model);
    model.run(&PIC::enable_irq(10, p, s));
    assert_eq!(masks(&mut model), (0xfb, 0xfb));
    let (p, s) = masks(&mut model);
    model.run(&PIC::disable_irq(10, p, s));
    assert_eq!(masks(&mut model), (0xfb, 0xff));
}

#[test]
fn disabling_a_line_that_was_open_does_not_restore() {
    let mut model = initialized();
    model.run(&PIC::set_mask(0x00, 0x00));
    let (p, s) = masks(&mut model);
    model.run(&PIC::enable_irq(0, p, s));
    let (p, s) = masks(&mut model);
    model.run(&PIC::disable_irq(0, p, s));
    assert_eq!(masks(&mut model), (0x01, 0x00));
}

#[test]
fn model_ignores_foreign_ports_and_widths() {
    let mut model = initialized();
    let before = model;
    assert_eq!(model.execute(out(0x60, 0x12)), None);
    assert_eq!(model.execute(input(0x60)), Some(0xff));
    assert_eq!(model.execute(PortOp::In16 { port: 0x20 }), None);
    assert_eq!(model.execute(PortOp::Out32 { port: 0x21, value: 0 }), None);
    assert_eq!(model, before);
}

#[test]
fn fresh_controller_is_blank() {
    let fresh = Controller::new();
    assert_eq!(fresh.imr, 0);
    assert_eq!(fresh.awaiting, 0);
    assert!(!fresh.reads_isr);
    assert_eq!(fresh.read(1), 0);
    let mut written = fresh;
    written.write(1, 0x3c);
    assert_eq!(written.read(1), 0x3c);
}

#[test]
fn model_reads_modifies_and_writes_the_masks() {
    let mut model = initialized();
    model.enable_irq(3);
    assert_eq!(model.get_mask(), (0xf7, 0xff));
    model.disable_irq(3);
    assert_eq!(model.get_mask(), (0xff, 0xff));
    model.enable_irq(14);
    assert_eq!(model.get_mask(), (0xfb, 0xbf));
    model.disable_irq(14);
    assert_eq!(model.get_mask(), (0xfb, 0xff));
    model.disable_irq(2);
    assert_eq!(model.get_mask(), (0xff, 0xff));
    assert_eq!(model.primary.vector_offset, 32);
    assert_eq!(model.secondary.vector_offset, 40);
}

#[test]
fn every_line_can_be_opened_and_closed_again() {
    for vector in 0..16u8 {
        let mut model = initialized();
        model.enable_irq(vector);
        let expected = if vector >= 8 {
            (0xfb, !(1u8 << (vector - 8)))
        } else {
            (!(1u8 << vector), 0xff)
        };
        assert_eq!(model.get_mask(), expected);
        model.disable_irq(vector);
        let expected = if vector >= 8 { (0xfb, 0xff) } else { (0xff, 0xff) };
        assert_eq!(model.get_mask(), expected);
    }
}
