use ostridge::interrupts::{
    control_key_name, init_idt, HandlerKind, Idt, PicPair, DOUBLE_FAULT_VECTOR,
    KEYBOARD_INTERRUPT_ID, PIC_1_OFFSET, PIC_2_OFFSET, TIMER_INTERRUPT_ID,
};
use ostridge::ps_2_scancodes::ControlKey;

#[test]
fn vector_numbering() {
    assert_eq!(PIC_1_OFFSET, 32);
    assert_eq!(PIC_2_OFFSET, PIC_1_OFFSET + 8);
    assert_eq!(TIMER_INTERRUPT_ID, PIC_1_OFFSET);
    assert_eq!(KEYBOARD_INTERRUPT_ID, PIC_1_OFFSET + 1);
}

#[test]
fn build_then_load_keeps_double_fault_stack() {
    let supplied = 0u8;
    let table = init_idt(supplied);
    let entry = table.entry(DOUBLE_FAULT_VECTOR);
    // The hardware encodes slot i as i + 1: never the zero default.
    assert_eq!(entry.stack_index, supplied + 1);
    assert_ne!(entry.stack_index, 0);
    assert_eq!(entry.handler, Some(HandlerKind::DoubleFault));

    let table = Idt::build(3).load();
    assert_eq!(table.entry(DOUBLE_FAULT_VECTOR).stack_index, 4);
}

#[test]
fn only_the_double_fault_leaves_the_default_stack() {
    let table = init_idt(0);
    for vector in 0..=255u8 {
        let entry = table.entry(vector);
        if vector == DOUBLE_FAULT_VECTOR {
            assert_ne!(entry.stack_index, 0);
        } else {
            assert_eq!(entry.stack_index, 0);
        }
        assert_eq!(entry.privilege, 0);
    }
}

#[test]
fn boot_table_wiring() {
    let table = init_idt(0);
    assert_eq!(table.entry(0).handler, Some(HandlerKind::DivideByZero));
    assert_eq!(table.entry(3).handler, Some(HandlerKind::Breakpoint));
    assert_eq!(table.entry(16).handler, Some(HandlerKind::X87FloatingPoint));
    assert_eq!(table.entry(18).handler, Some(HandlerKind::MachineCheck));
    assert_eq!(table.entry(TIMER_INTERRUPT_ID).handler, Some(HandlerKind::Timer));
    assert_eq!(
        table.entry(KEYBOARD_INTERRUPT_ID).handler,
        Some(HandlerKind::Keyboard)
    );
    // Vectors the boot code leaves alone trap to the CPU's own behaviour.
    assert_eq!(table.entry(9).handler, None);
    assert_eq!(table.entry(14).handler, None);
    assert_eq!(table.entry(48).handler, None);
    assert_eq!(table.entry(255).handler, None);
}

#[test]
fn no_acknowledge_no_second_timer_dispatch() {
    let mut pics = PicPair::new(PIC_1_OFFSET, PIC_2_OFFSET);
    assert!(pics.dispatch(TIMER_INTERRUPT_ID));
    // Until the handler acknowledges, the controller accepts no second tick.
    assert!(!pics.dispatch(TIMER_INTERRUPT_ID));
    pics.acknowledge(TIMER_INTERRUPT_ID);
    assert!(pics.dispatch(TIMER_INTERRUPT_ID));
}

#[test]
fn acknowledge_frees_the_keyboard_line_too() {
    let mut pics = PicPair::new(PIC_1_OFFSET, PIC_2_OFFSET);
    assert!(pics.dispatch(TIMER_INTERRUPT_ID));
    assert!(!pics.dispatch(KEYBOARD_INTERRUPT_ID));
    pics.acknowledge(TIMER_INTERRUPT_ID);
    assert!(pics.dispatch(KEYBOARD_INTERRUPT_ID));
}

#[test]
fn secondary_vectors_travel_through_the_primary() {
    let mut pics = PicPair::new(PIC_1_OFFSET, PIC_2_OFFSET);
    assert!(pics.dispatch(44));
    // The cascade line is busy: neither chip delivers.
    assert!(!pics.dispatch(44));
    assert!(!pics.dispatch(TIMER_INTERRUPT_ID));
    pics.acknowledge(44);
    assert!(pics.dispatch(TIMER_INTERRUPT_ID));
}

#[test]
fn vectors_outside_the_pair_are_refused() {
    let mut pics = PicPair::new(PIC_1_OFFSET, PIC_2_OFFSET);
    assert!(!pics.dispatch(31));
    assert!(!pics.dispatch(48));
    assert!(pics.dispatch(47));
}

#[test]
fn remap_moves_the_offsets() {
    let mut pics = PicPair::new(PIC_1_OFFSET, PIC_2_OFFSET);
    pics.remap(40, 48);
    assert!(!pics.dispatch(32));
    assert!(pics.dispatch(40));
    pics.acknowledge(40);
    assert!(pics.dispatch(55));
}

#[test]
fn control_key_names() {
    assert_eq!(control_key_name(&ControlKey::Enter), "Enter");
    assert_eq!(control_key_name(&ControlKey::Escape), "Escape");
    assert_eq!(control_key_name(&ControlKey::PrintScreen), "Print Screen");
    assert_eq!(control_key_name(&ControlKey::MultimediaPrevTrack), "Prev Track");
    assert_eq!(control_key_name(&ControlKey::F10), "F10");
    assert_eq!(control_key_name(&ControlKey::ACPISleep), "ACPISleep");
}
