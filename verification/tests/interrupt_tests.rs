use samd_hal::interrupts::{
    BindError, Bindings, DmacInterruptSources, InterruptId, InterruptSource, Nvic, Priority,
};

#[test]
fn priority_round_trip_all_levels() {
    let levels = [Priority::P1, Priority::P2, Priority::P3, Priority::P4];
    for p in levels {
        assert_eq!(Priority::hw2logical(p.logical2hw()), p);
    }
}

#[test]
fn priority_hardware_encoding_values() {
    assert_eq!(Priority::P1.logical2hw(), 0xC0);
    assert_eq!(Priority::P2.logical2hw(), 0x80);
    assert_eq!(Priority::P3.logical2hw(), 0x40);
    assert_eq!(Priority::P4.logical2hw(), 0x00);
}

#[test]
fn priority_decodes_exact_granularity_values() {
    assert_eq!(Priority::hw2logical(0x00), Priority::P4);
    assert_eq!(Priority::hw2logical(0x40), Priority::P3);
    assert_eq!(Priority::hw2logical(0x80), Priority::P2);
    assert_eq!(Priority::hw2logical(0xC0), Priority::P1);
}

#[test]
fn priority_rejects_misaligned_hardware_values() {
    assert_eq!(Priority::try_hw2logical(0x01), None);
    assert_eq!(Priority::try_hw2logical(0x21), None);
    assert_eq!(Priority::try_hw2logical(0x7F), None);
    assert_eq!(Priority::try_hw2logical(0x80), Some(Priority::P2));
}

#[test]
fn nvic_single_source_operations() {
    let mut nvic = Nvic::new();
    let irq = InterruptId::Tc3;
    assert!(!nvic.is_enabled(irq));
    irq.enable(&mut nvic);
    assert!(nvic.is_enabled(irq));
    assert!(!nvic.is_enabled(InterruptId::Tc4));
    irq.disable(&mut nvic);
    assert!(!nvic.is_enabled(irq));

    nvic.pend(irq);
    assert!(nvic.is_pending(irq));
    irq.unpend(&mut nvic);
    assert!(!nvic.is_pending(irq));

    irq.set_priority(&mut nvic, Priority::P3);
    assert_eq!(nvic.get_priority(irq), Priority::P3);
}

#[test]
fn nvic_aggregate_source_covers_all_its_vectors() {
    let mut nvic = Nvic::new();
    let dmac = DmacInterruptSources;
    dmac.enable(&mut nvic);
    assert!(nvic.is_enabled(InterruptId::Dmac0));
    assert!(nvic.is_enabled(InterruptId::Dmac1));
    assert!(nvic.is_enabled(InterruptId::Dmac2));
    assert!(nvic.is_enabled(InterruptId::DmacOther));
    assert!(!nvic.is_enabled(InterruptId::Eic));
    dmac.set_priority(&mut nvic, Priority::P2);
    assert_eq!(nvic.get_priority(InterruptId::Dmac2), Priority::P2);
    assert_eq!(nvic.get_priority(InterruptId::Eic), Priority::P4);
    dmac.disable(&mut nvic);
    assert!(!nvic.is_enabled(InterruptId::Dmac0));
}

#[test]
fn binding_rejects_second_handler_for_same_source() {
    let mut bindings = Bindings::new();
    let first = bindings.bind(&DmacInterruptSources, 1);
    assert!(first.is_ok());
    // A second handler touching any vector of the bound source is refused.
    let second = bindings.bind(&InterruptId::Dmac1, 9);
    assert!(matches!(second, Err(BindError::AlreadyBound)));
    let whole = bindings.bind(&DmacInterruptSources, 1);
    assert!(whole.is_err());
    // An unrelated vector can still be bound.
    let other = bindings.bind(&InterruptId::Eic, 5);
    assert!(other.is_ok());
}

#[test]
fn binding_certificate_records_source_and_handler() {
    let mut bindings = Bindings::new();
    let binding = bindings.bind(&InterruptId::Sercom0, 3).unwrap();
    assert_eq!(binding.vectors().len(), 1);
    assert_eq!(binding.vectors()[0], InterruptId::Sercom0);
    assert_eq!(binding.handler(), 3);
}
