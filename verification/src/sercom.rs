//! The serial communication engine shared by the I2C and SPI drivers:
//! its register model and the handle the DMA engine uses to address its
//! data register.

use vstd::prelude::*;

verus! {

/// Number of serial engine instances on the modeled hardware variant.
pub const NUM_SERCOM: usize = 3;

/// One serial engine's registers, covering the fields the I2C and SPI
/// modes read and write.
#[derive(Clone, Copy, Debug, PartialEq, Eq, Structural)]
pub struct SercomRegs {
    /// Control A: software reset (bit 0), enable (bit 1), operating mode
    /// (bits 2..=4), run in standby (bit 7).
    pub ctrla: u32,
    /// Control B: command (bits 16..=17), acknowledge action (bit 18).
    pub ctrlb: u32,
    /// Baud rate.
    pub baud: u32,
    /// Interrupt enable; one bit per mode-specific flag.
    pub intenset: u8,
    /// Interrupt flags; one bit per mode-specific flag.
    pub intflag: u8,
    /// Mode-specific status.
    pub status: u16,
    /// I2C master address: address and direction (bits 0..=10), length
    /// enable (bit 13), transaction length (bits 16..=23).
    pub addr: u32,
    /// Data register.
    pub data: u16,
    /// Synchronization busy: software reset (bit 0), enable (bit 1).
    pub syncbusy: u32,
}

impl SercomRegs {
    /// Registers at their reset values.
    pub fn new() -> (r: SercomRegs)
        ensures
            r == (SercomRegs {
                ctrla: 0u32,
                ctrlb: 0u32,
                baud: 0u32,
                intenset: 0u8,
                intflag: 0u8,
                status: 0u16,
                addr: 0u32,
                data: 0u16,
                syncbusy: 0u32,
            }),
    {
        SercomRegs {
            ctrla: 0,
            ctrlb: 0,
            baud: 0,
            intenset: 0,
            intflag: 0,
            status: 0,
            addr: 0,
            data: 0,
            syncbusy: 0,
        }
    }
}

/// Handle denoting one serial engine's data register, handed to the DMA
/// engine as the fixed end of a peripheral transfer.
#[derive(Clone, Copy, Debug, PartialEq, Eq, Structural)]
pub struct SercomPtr(
    /// The serial engine instance number.
    pub u8,
);

/// The DMA trigger raised when serial engine `num` has received a word.
pub open spec fn spec_sercom_rx_trigger(num: u8) -> crate::dmac::TriggerSource {
    if num == 0 {
        crate::dmac::TriggerSource::Sercom0Rx
    } else if num == 1 {
        crate::dmac::TriggerSource::Sercom1Rx
    } else {
        crate::dmac::TriggerSource::Sercom2Rx
    }
}

/// The DMA trigger raised when serial engine `num` can accept a word.
pub open spec fn spec_sercom_tx_trigger(num: u8) -> crate::dmac::TriggerSource {
    if num == 0 {
        crate::dmac::TriggerSource::Sercom0Tx
    } else if num == 1 {
        crate::dmac::TriggerSource::Sercom1Tx
    } else {
        crate::dmac::TriggerSource::Sercom2Tx
    }
}

/// The DMA trigger raised when serial engine `num` has received a word.
pub fn sercom_rx_trigger(num: u8) -> (r: crate::dmac::TriggerSource)
    requires
        num < NUM_SERCOM,
    ensures
        r == spec_sercom_rx_trigger(num),
{
    if num == 0 {
        crate::dmac::TriggerSource::Sercom0Rx
    } else if num == 1 {
        crate::dmac::TriggerSource::Sercom1Rx
    } else {
        crate::dmac::TriggerSource::Sercom2Rx
    }
}

/// The DMA trigger raised when serial engine `num` can accept a word.
pub fn sercom_tx_trigger(num: u8) -> (r: crate::dmac::TriggerSource)
    requires
        num < NUM_SERCOM,
    ensures
        r == spec_sercom_tx_trigger(num),
{
    if num == 0 {
        crate::dmac::TriggerSource::Sercom0Tx
    } else if num == 1 {
        crate::dmac::TriggerSource::Sercom1Tx
    } else {
        crate::dmac::TriggerSource::Sercom2Tx
    }
}

/// The interrupt vector of serial engine `num`.
pub open spec fn spec_sercom_vector(num: u8) -> crate::interrupts::InterruptId {
    if num == 0 {
        crate::interrupts::InterruptId::Sercom0
    } else if num == 1 {
        crate::interrupts::InterruptId::Sercom1
    } else {
        crate::interrupts::InterruptId::Sercom2
    }
}

/// The interrupt vector of serial engine `num`.
pub fn sercom_vector(num: u8) -> (r: crate::interrupts::InterruptId)
    requires
        num < NUM_SERCOM,
    ensures
        r == spec_sercom_vector(num),
{
    if num == 0 {
        crate::interrupts::InterruptId::Sercom0
    } else if num == 1 {
        crate::interrupts::InterruptId::Sercom1
    } else {
        crate::interrupts::InterruptId::Sercom2
    }
}

} // verus!
