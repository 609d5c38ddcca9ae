//! Register-level model of the DMA controller.
//!
//! The hardware-visible registers are held as plain values; every bit the
//! driver logic reads or writes is specified by the bit helpers at the top
//! of the module. Accessors follow the register map: control, CRC engine,
//! software trigger, priority control, interrupt pending/status, channel
//! status summaries, the descriptor-memory base addresses, and one register
//! cluster per channel.

use vstd::prelude::*;

verus! {

/// Whether bit `pos` of `bits` is set.
pub open spec fn spec_bit32(bits: u32, pos: u32) -> bool {
    bits & (1u32 << pos) != 0
}

/// Whether bit `pos` of `bits` is set.
pub open spec fn spec_bit16(bits: u16, pos: u16) -> bool {
    bits & (1u16 << pos) != 0
}

/// Whether bit `pos` of `bits` is set.
pub open spec fn spec_bit8(bits: u8, pos: u8) -> bool {
    bits & (1u8 << pos) != 0
}

/// `bits` with bit `pos` forced to `v`.
pub open spec fn spec_with_bit32(bits: u32, pos: u32, v: bool) -> u32 {
    if v {
        bits | (1u32 << pos)
    } else {
        bits & !(1u32 << pos)
    }
}

/// `bits` with bit `pos` forced to `v`.
pub open spec fn spec_with_bit16(bits: u16, pos: u16, v: bool) -> u16 {
    if v {
        bits | (1u16 << pos)
    } else {
        bits & !(1u16 << pos)
    }
}

/// `bits` with bit `pos` forced to `v`.
pub open spec fn spec_with_bit8(bits: u8, pos: u8, v: bool) -> u8 {
    if v {
        bits | (1u8 << pos)
    } else {
        bits & !(1u8 << pos)
    }
}

/// Read bit `pos` of `bits`.
pub fn get_bit32(bits: u32, pos: u32) -> (b: bool)
    requires
        pos < 32,
    ensures
        b == spec_bit32(bits, pos),
{
    bits & (1u32 << pos) != 0
}

/// Read bit `pos` of `bits`.
pub fn get_bit16(bits: u16, pos: u16) -> (b: bool)
    requires
        pos < 16,
    ensures
        b == spec_bit16(bits, pos),
{
    bits & (1u16 << pos) != 0
}

/// Read bit `pos` of `bits`.
pub fn get_bit8(bits: u8, pos: u8) -> (b: bool)
    requires
        pos < 8,
    ensures
        b == spec_bit8(bits, pos),
{
    bits & (1u8 << pos) != 0
}

/// Force bit `pos` of `bits` to `v`.
pub fn with_bit32(bits: u32, pos: u32, v: bool) -> (r: u32)
    requires
        pos < 32,
    ensures
        r == spec_with_bit32(bits, pos, v),
{
    if v {
        bits | (1u32 << pos)
    } else {
        bits & !(1u32 << pos)
    }
}

/// Force bit `pos` of `bits` to `v`.
pub fn with_bit16(bits: u16, pos: u16, v: bool) -> (r: u16)
    requires
        pos < 16,
    ensures
        r == spec_with_bit16(bits, pos, v),
{
    if v {
        bits | (1u16 << pos)
    } else {
        bits & !(1u16 << pos)
    }
}

/// Force bit `pos` of `bits` to `v`.
pub fn with_bit8(bits: u8, pos: u8, v: bool) -> (r: u8)
    requires
        pos < 8,
    ensures
        r == spec_with_bit8(bits, pos, v),
{
    if v {
        bits | (1u8 << pos)
    } else {
        bits & !(1u8 << pos)
    }
}

/// Forcing one bit changes that bit to the chosen value and no other.
pub proof fn lemma_bit32_update(bits: u32, pos: u32, v: bool, q: u32)
    by (bit_vector)
    requires
        pos < 32,
        q < 32,
    ensures
        spec_bit32(spec_with_bit32(bits, pos, v), q) == (if q == pos {
            v
        } else {
            spec_bit32(bits, q)
        }),
{
}

/// Forcing one bit changes that bit to the chosen value and no other.
pub proof fn lemma_bit16_update(bits: u16, pos: u16, v: bool, q: u16)
    by (bit_vector)
    requires
        pos < 16,
        q < 16,
    ensures
        spec_bit16(spec_with_bit16(bits, pos, v), q) == (if q == pos {
            v
        } else {
            spec_bit16(bits, q)
        }),
{
}

/// Forcing one bit changes that bit to the chosen value and no other.
pub proof fn lemma_bit8_update(bits: u8, pos: u8, v: bool, q: u8)
    by (bit_vector)
    requires
        pos < 8,
        q < 8,
    ensures
        spec_bit8(spec_with_bit8(bits, pos, v), q) == (if q == pos {
            v
        } else {
            spec_bit8(bits, q)
        }),
{
}

/// Control register: software reset, controller enable, and one enable bit
/// per priority level in the high byte.
#[derive(Clone, Copy, Debug, PartialEq, Eq, Structural)]
pub struct Ctrl {
    /// Raw register value.
    pub bits: u16,
}

/// CRC control register.
#[derive(Clone, Copy, Debug, PartialEq, Eq, Structural)]
pub struct Crcctrl {
    /// Raw register value.
    pub bits: u16,
}

/// CRC data-input register.
#[derive(Clone, Copy, Debug, PartialEq, Eq, Structural)]
pub struct Crcdatain {
    /// Raw register value.
    pub bits: u32,
}

/// CRC checksum register.
#[derive(Clone, Copy, Debug, PartialEq, Eq, Structural)]
pub struct Crcchksum {
    /// Raw register value.
    pub bits: u32,
}

/// CRC status register.
#[derive(Clone, Copy, Debug, PartialEq, Eq, Structural)]
pub struct Crcstatus {
    /// Raw register value.
    pub bits: u8,
}

/// Debug control register.
#[derive(Clone, Copy, Debug, PartialEq, Eq, Structural)]
pub struct Dbgctrl {
    /// Raw register value.
    pub bits: u8,
}

/// Software trigger control register: one trigger bit per channel.
#[derive(Clone, Copy, Debug, PartialEq, Eq, Structural)]
pub struct Swtrigctrl {
    /// Raw register value.
    pub bits: u32,
}

/// Priority control register: one round-robin enable bit per level, in the
/// top bit of each byte.
#[derive(Clone, Copy, Debug, PartialEq, Eq, Structural)]
pub struct Prictrl0 {
    /// Raw register value.
    pub bits: u32,
}

/// Interrupt pending register: the lowest-numbered pending channel's id and
/// its transfer-error / transfer-complete / suspend flags.
#[derive(Clone, Copy, Debug, PartialEq, Eq, Structural)]
pub struct Intpend {
    /// Raw register value.
    pub bits: u16,
}

/// Interrupt status register: one summary bit per channel with a pending
/// interrupt.
#[derive(Clone, Copy, Debug, PartialEq, Eq, Structural)]
pub struct Intstatus {
    /// Raw register value.
    pub bits: u32,
}

/// Busy-channels register: one bit per channel with an ongoing transfer.
#[derive(Clone, Copy, Debug, PartialEq, Eq, Structural)]
pub struct Busych {
    /// Raw register value.
    pub bits: u32,
}

/// Pending-channels register: one bit per channel with a pending trigger.
#[derive(Clone, Copy, Debug, PartialEq, Eq, Structural)]
pub struct Pendch {
    /// Raw register value.
    pub bits: u32,
}

/// Active channel and levels register.
#[derive(Clone, Copy, Debug, PartialEq, Eq, Structural)]
pub struct Active {
    /// Raw register value.
    pub bits: u32,
}

/// Descriptor memory section base address register.
#[derive(Clone, Copy, Debug, PartialEq, Eq, Structural)]
pub struct Baseaddr {
    /// Raw register value.
    pub bits: u32,
}

/// Write-back memory section base address register.
#[derive(Clone, Copy, Debug, PartialEq, Eq, Structural)]
pub struct Wrbaddr {
    /// Raw register value.
    pub bits: u32,
}

/// One channel's register cluster: channel control, interrupt enable and
/// flags, status, and priority level.
#[derive(Clone, Copy, Debug, PartialEq, Eq, Structural)]
pub struct Channel {
    /// Channel control: software reset (bit 0), enable (bit 1), trigger
    /// source (bits 8..=13), trigger action (bits 20..=21).
    pub chctrla: u32,
    /// Interrupt enable: transfer error (bit 0), transfer complete (bit 1).
    pub chintenset: u8,
    /// Interrupt flags: transfer error (bit 0), transfer complete (bit 1).
    pub chintflag: u8,
    /// Channel status.
    pub chstatus: u8,
    /// Channel priority level.
    pub chprilvl: u8,
}

impl Channel {
    /// A channel cluster at its reset values.
    pub fn new() -> (r: Channel)
        ensures
            r == (Channel { chctrla: 0u32, chintenset: 0u8, chintflag: 0u8, chstatus: 0u8, chprilvl: 0u8 }),
    {
        Channel { chctrla: 0, chintenset: 0, chintflag: 0, chstatus: 0, chprilvl: 0 }
    }
}

/// The DMA controller's register block.
pub struct RegisterBlock {
    /// Control register.
    pub ctrl: Ctrl,
    /// CRC control register.
    pub crcctrl: Crcctrl,
    /// CRC data-input register.
    pub crcdatain: Crcdatain,
    /// CRC checksum register.
    pub crcchksum: Crcchksum,
    /// CRC status register.
    pub crcstatus: Crcstatus,
    /// Debug control register.
    pub dbgctrl: Dbgctrl,
    /// Software trigger control register.
    pub swtrigctrl: Swtrigctrl,
    /// Priority control register.
    pub prictrl0: Prictrl0,
    /// Interrupt pending register.
    pub intpend: Intpend,
    /// Interrupt status register.
    pub intstatus: Intstatus,
    /// Busy-channels register.
    pub busych: Busych,
    /// Pending-channels register.
    pub pendch: Pendch,
    /// Active channel and levels register.
    pub active: Active,
    /// Descriptor memory base address register.
    pub baseaddr: Baseaddr,
    /// Write-back memory base address register.
    pub wrbaddr: Wrbaddr,
    /// Per-channel register clusters.
    pub channel: Vec<Channel>,
}

impl RegisterBlock {
    /// A register block with `n` channels, all registers at their reset
    /// values.
    pub fn new(n: usize) -> (r: RegisterBlock)
        ensures
            r.channel@.len() == n,
            r.ctrl.bits == 0,
            r.prictrl0.bits == 0,
            r.intstatus.bits == 0,
            r.intpend.bits == 0,
            r.baseaddr.bits == 0,
            r.wrbaddr.bits == 0,
            r.swtrigctrl.bits == 0,
            forall|i: int|
                0 <= i < n ==> r.channel@[i] == (Channel {
                    chctrla: 0u32,
                    chintenset: 0u8,
                    chintflag: 0u8,
                    chstatus: 0u8,
                    chprilvl: 0u8,
                }),
    {
        let mut channel: Vec<Channel> = Vec::new();
        let mut i: usize = 0;
        while i < n
            invariant
                i <= n,
                channel.len() == i,
                forall|j: int|
                    0 <= j < i ==> channel@[j] == (Channel {
                        chctrla: 0u32,
                        chintenset: 0u8,
                        chintflag: 0u8,
                        chstatus: 0u8,
                        chprilvl: 0u8,
                    }),
            decreases n - i,
        {
            channel.push(Channel::new());
            i = i + 1;
        }
        RegisterBlock {
            ctrl: Ctrl { bits: 0 },
            crcctrl: Crcctrl { bits: 0 },
            crcdatain: Crcdatain { bits: 0 },
            crcchksum: Crcchksum { bits: 0 },
            crcstatus: Crcstatus { bits: 0 },
            dbgctrl: Dbgctrl { bits: 0 },
            swtrigctrl: Swtrigctrl { bits: 0 },
            prictrl0: Prictrl0 { bits: 0 },
            intpend: Intpend { bits: 0 },
            intstatus: Intstatus { bits: 0 },
            busych: Busych { bits: 0 },
            pendch: Pendch { bits: 0 },
            active: Active { bits: 0 },
            baseaddr: Baseaddr { bits: 0 },
            wrbaddr: Wrbaddr { bits: 0 },
            channel,
        }
    }

    /// Control register.
    pub fn ctrl(&self) -> (r: &Ctrl)
        ensures
            *r == self.ctrl,
    {
        &self.ctrl
    }

    /// CRC control register.
    pub fn crcctrl(&self) -> (r: &Crcctrl)
        ensures
            *r == self.crcctrl,
    {
        &self.crcctrl
    }

    /// CRC data-input register.
    pub fn crcdatain(&self) -> (r: &Crcdatain)
        ensures
            *r == self.crcdatain,
    {
        &self.crcdatain
    }

    /// CRC checksum register.
    pub fn crcchksum(&self) -> (r: &Crcchksum)
        ensures
            *r == self.crcchksum,
    {
        &self.crcchksum
    }

    /// CRC status register.
    pub fn crcstatus(&self) -> (r: &Crcstatus)
        ensures
            *r == self.crcstatus,
    {
        &self.crcstatus
    }

    /// Debug control register.
    pub fn dbgctrl(&self) -> (r: &Dbgctrl)
        ensures
            *r == self.dbgctrl,
    {
        &self.dbgctrl
    }

    /// Software trigger control register.
    pub fn swtrigctrl(&self) -> (r: &Swtrigctrl)
        ensures
            *r == self.swtrigctrl,
    {
        &self.swtrigctrl
    }

    /// Priority control register.
    pub fn prictrl0(&self) -> (r: &Prictrl0)
        ensures
            *r == self.prictrl0,
    {
        &self.prictrl0
    }

    /// Interrupt pending register.
    pub fn intpend(&self) -> (r: &Intpend)
        ensures
            *r == self.intpend,
    {
        &self.intpend
    }

    /// Interrupt status register.
    pub fn intstatus(&self) -> (r: &Intstatus)
        ensures
            *r == self.intstatus,
    {
        &self.intstatus
    }

    /// Busy-channels register.
    pub fn busych(&self) -> (r: &Busych)
        ensures
            *r == self.busych,
    {
        &self.busych
    }

    /// Pending-channels register.
    pub fn pendch(&self) -> (r: &Pendch)
        ensures
            *r == self.pendch,
    {
        &self.pendch
    }

    /// Active channel and levels register.
    pub fn active(&self) -> (r: &Active)
        ensures
            *r == self.active,
    {
        &self.active
    }

    /// Descriptor memory base address register.
    pub fn baseaddr(&self) -> (r: &Baseaddr)
        ensures
            *r == self.baseaddr,
    {
        &self.baseaddr
    }

    /// Write-back memory base address register.
    pub fn wrbaddr(&self) -> (r: &Wrbaddr)
        ensures
            *r == self.wrbaddr,
    {
        &self.wrbaddr
    }

    /// Register cluster of channel `n`.
    pub fn channel(&self, n: usize) -> (r: &Channel)
        requires
            n < self.channel@.len(),
        ensures
            *r == self.channel@[n as int],
    {
        &self.channel[n]
    }

    /// All channel register clusters, in channel order.
    pub fn channel_iter(&self) -> (r: &Vec<Channel>)
        ensures
            r@ == self.channel@,
    {
        &self.channel
    }
}

} // verus!
