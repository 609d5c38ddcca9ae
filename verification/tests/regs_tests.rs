use samd_hal::aes;
use samd_hal::dmac_regs::{get_bit32, with_bit16, with_bit32, RegisterBlock};
use samd_hal::eic::{EicCapablePin, EicPin, EicRegs, ExtIntFuture, ExternalInterrupt, Sense};
use samd_hal::pdec;

#[test]
fn register_block_accessors_read_their_registers() {
    let mut rb = RegisterBlock::new(4);
    rb.ctrl.bits = 0x0F02;
    rb.prictrl0.bits = 0x8080;
    rb.baseaddr.bits = 0x2000_0000;
    rb.wrbaddr.bits = 0x2000_0200;
    assert_eq!(rb.ctrl().bits, 0x0F02);
    assert_eq!(rb.crcctrl().bits, 0);
    assert_eq!(rb.crcdatain().bits, 0);
    assert_eq!(rb.crcchksum().bits, 0);
    assert_eq!(rb.crcstatus().bits, 0);
    assert_eq!(rb.dbgctrl().bits, 0);
    assert_eq!(rb.swtrigctrl().bits, 0);
    assert_eq!(rb.prictrl0().bits, 0x8080);
    assert_eq!(rb.intpend().bits, 0);
    assert_eq!(rb.intstatus().bits, 0);
    assert_eq!(rb.busych().bits, 0);
    assert_eq!(rb.pendch().bits, 0);
    assert_eq!(rb.active().bits, 0);
    assert_eq!(rb.baseaddr().bits, 0x2000_0000);
    assert_eq!(rb.wrbaddr().bits, 0x2000_0200);
    assert_eq!(rb.channel(3).chctrla, 0);
    assert_eq!(rb.channel_iter().len(), 4);
}

#[test]
fn bit_helpers_force_single_bits() {
    assert_eq!(with_bit32(0, 5, true), 0x20);
    assert_eq!(with_bit32(0xFFFF_FFFF, 0, false), 0xFFFF_FFFE);
    assert_eq!(with_bit16(0x0F02, 1, false), 0x0F00);
    assert!(get_bit32(0x20, 5));
    assert!(!get_bit32(0x20, 4));
}

#[test]
fn position_decoder_interrupt_enable_fields() {
    let r = pdec::R { bits: 0x22 };
    assert!(!r.ovf().bit_is_set());
    assert!(r.err().bit_is_set());
    assert!(!r.dir().bit());
    assert!(!r.vlc().bit_is_set());
    assert!(!r.mc0().bit_is_set());
    assert!(r.mc1().bit_is_set());
    assert!(r.dir().bit_is_clear());

    let w = pdec::W { bits: 0 };
    let w = w.ovf().set_bit();
    let w = w.err().set_bit();
    let w = w.mc0().set_bit();
    assert_eq!(w.bits, 0x13);
    let w = w.err().clear_bit();
    assert_eq!(w.bits, 0x11);
    let w = w.vlc().bit(true);
    assert_eq!(w.bits, 0x19);
}

#[test]
fn cipher_debug_control_field() {
    let r = aes::R { bits: 0x01 };
    assert!(r.dbgrun().bit_is_set());
    let r = aes::R { bits: 0x00 };
    assert!(r.dbgrun().bit_is_clear());

    let w = aes::W { bits: 0 };
    let w = w.dbgrun().set_bit();
    assert_eq!(w.bits, 0x01);
    let w = w.dbgrun().clear_bit();
    assert_eq!(w.bits, 0x00);
}

#[test]
fn external_interrupt_line_operations() {
    let mut eic = EicRegs::new();
    let pin = EicCapablePin { line: 5 };
    let mut ext = pin.into_floating_ei();
    assert_eq!(ext.id(), 5);
    ext.sense(&mut eic, Sense::Rise);
    assert_eq!(eic.sense[5], 1);
    ext.enable_interrupt(&mut eic);
    assert_eq!(eic.intenset, 1 << 5);
    assert!(!ext.is_interrupt(&eic));
    eic.hw_raise(5);
    assert!(ext.is_interrupt(&eic));
    ext.clear_interrupt(&mut eic);
    assert!(!ext.is_interrupt(&eic));
    ext.disable_interrupt(&mut eic);
    assert_eq!(eic.intenset, 0);
}

#[test]
fn external_interrupt_async_wait() {
    let mut eic = EicRegs::new();
    let pin = EicCapablePin { line: 3 };
    let mut line = ExtIntFuture::new(pin.into_pull_up_ei());
    line.ext.enable_interrupt(&mut eic);
    let waker = futures::task::noop_waker();
    assert!(!line.poll_wait(&waker));
    // The sensed condition occurs between registration and the recheck.
    eic.hw_raise(3);
    line.on_interrupt(&mut eic);
    assert!(line.poll_wait(&waker));
    assert!(!line.poll_wait(&waker));
}
