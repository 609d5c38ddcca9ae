//! The serial engine configured as an I2C bus master, and its DMA-backed
//! asynchronous transfers.
//!
//! [`Config`] owns the engine while it is being configured and disabled;
//! [`Config::enable`] turns it into an [`I2c`]. For DMA-backed transfers,
//! [`I2cFuture::write_dma`] and [`I2cFuture::read_dma`] validate the bus
//! state, program the address register with the transaction's address,
//! direction and length, and delegate the data movement to the DMA
//! engine; after the transfer completes, [`I2cFuture::finish_dma`]
//! inspects the bus status and surfaces any bus error, arbitration loss
//! or not-acknowledge to the caller.

use vstd::prelude::*;

use core::marker::PhantomData;

use crate::dmac::{Channel, DmaController, IrqsBound, ReadyFuture, TriggerAction};
use crate::dmac_regs::{get_bit16, spec_bit16};
use crate::sercom::{
    sercom_rx_trigger, sercom_tx_trigger, spec_sercom_rx_trigger, spec_sercom_tx_trigger,
    SercomPtr, SercomRegs, NUM_SERCOM,
};
use crate::transfer::{DmaError, Transfer, TransferBuffer};

verus! {

/// Handler identity of the I2C interrupt handler, as recorded in a
/// binding certificate.
pub const I2C_HANDLER: u64 = 4;

/// Interrupt flag: master on bus.
pub const FLAG_MB: u8 = 0x01;

/// Interrupt flag: slave on bus.
pub const FLAG_SB: u8 = 0x02;

/// Interrupt flag: bus error condition.
pub const FLAG_ERROR: u8 = 0x80;

/// Status bit: bus error.
pub const STATUS_BUSERR: u16 = 0x0001;

/// Status bit: arbitration lost.
pub const STATUS_ARBLOST: u16 = 0x0002;

/// Status bit: the addressed device did not acknowledge.
pub const STATUS_RXNACK: u16 = 0x0004;

/// Bus state field value: state unknown.
pub const BUS_STATE_UNKNOWN: u8 = 0;

/// Bus state field value: bus idle.
pub const BUS_STATE_IDLE: u8 = 1;

/// Bus state field value: this master owns the bus.
pub const BUS_STATE_OWNER: u8 = 2;

/// Bus state field value: another master owns the bus.
pub const BUS_STATE_BUSY: u8 = 3;

/// The mode-field encoding selecting I2C master operation.
pub const MASTER_MODE_BITS: u8 = 0x5;

/// The mode-field encoding selecting I2C slave operation.
pub const SLAVE_MODE_BITS: u8 = 0x4;

/// Interrupt flags of the I2C engine.
#[derive(Clone, Copy, Debug, PartialEq, Eq, Structural)]
pub struct Flags {
    /// Raw flag bits.
    pub bits: u8,
}

/// Status register of the I2C engine.
#[derive(Clone, Copy, Debug, PartialEq, Eq, Structural)]
pub struct Status {
    /// Raw status bits.
    pub bits: u16,
}

impl Status {
    /// The bus state field (bits 4..=5).
    pub open spec fn spec_bus_state(self) -> u16 {
        (self.bits >> 4u16) & 3u16
    }

    /// The bus state field (bits 4..=5).
    pub fn bus_state(&self) -> (r: u16)
        ensures
            r == self.spec_bus_state(),
            r < 4,
    {
        proof {
            let b = self.bits;
            assert(((b >> 4u16) & 3u16) < 4) by (bit_vector);
        }
        (self.bits >> 4u16) & 3u16
    }
}

/// A typed I2C failure, surfaced to the caller rather than retried.
#[derive(Clone, Copy, Debug, PartialEq, Eq, Structural)]
pub enum Error {
    /// A bus error condition was detected, or the transfer could not
    /// start because the bus is not available.
    BusError,
    /// Arbitration was lost to another master.
    ArbitrationLost,
    /// The addressed device did not acknowledge.
    Nack,
    /// The transaction length is not supported.
    LengthError,
    /// A bus timeout elapsed.
    Timeout,
}

/// Register-level access to the I2C engine.
pub struct Registers {
    /// The underlying serial engine's registers.
    pub sercom: SercomRegs,
    /// The serial engine instance number.
    pub num: u8,
}

impl Registers {
    /// Take ownership of a serial engine instance.
    pub fn new(sercom: SercomRegs, num: u8) -> (r: Registers)
        ensures
            r.sercom == sercom,
            r.num == num,
    {
        Registers { sercom, num }
    }

    /// Handle to the engine's data register, for DMA transfers.
    pub fn data_ptr(&self) -> (r: SercomPtr)
        ensures
            r == SercomPtr(self.num),
    {
        SercomPtr(self.num)
    }

    /// Release the underlying serial engine.
    pub fn free(self) -> (r: SercomRegs)
        ensures
            r == self.sercom,
    {
        self.sercom
    }

    /// Reset the serial engine; the hardware acknowledges by clearing the
    /// reset and synchronization bits once done.
    pub fn swrst(&mut self)
        ensures
            final(self).num == old(self).num,
            final(self).sercom == (SercomRegs {
                ctrla: 0u32,
                ctrlb: 0u32,
                baud: 0u32,
                intenset: 0u8,
                intflag: 0u8,
                status: 0u16,
                addr: 0u32,
                data: 0u16,
                syncbusy: 0u32,
            }),
    {
        self.sercom = SercomRegs::new();
    }

    /// Select the engine's operating mode (bits 2..=4 of control A).
    pub fn set_op_mode(&mut self, mode: u8)
        requires
            mode < 8,
        ensures
            final(self).num == old(self).num,
            final(self).sercom == (SercomRegs {
                ctrla: (old(self).sercom.ctrla & !0x1Cu32) | ((mode as u32) << 2u32),
                ..old(self).sercom
            }),
    {
        self.sercom.ctrla = (self.sercom.ctrla & !0x1Cu32) | ((mode as u32) << 2u32);
    }

    /// Set or clear run-in-standby (bit 7 of control A).
    pub fn set_run_in_standby(&mut self, set: bool)
        ensures
            final(self).num == old(self).num,
            final(self).sercom == (SercomRegs {
                ctrla: crate::dmac_regs::spec_with_bit32(old(self).sercom.ctrla, 7, set),
                ..old(self).sercom
            }),
    {
        self.sercom.ctrla = crate::dmac_regs::with_bit32(self.sercom.ctrla, 7, set);
    }

    /// Whether run-in-standby is set.
    pub fn get_run_in_standby(&self) -> (r: bool)
        ensures
            r == crate::dmac_regs::spec_bit32(self.sercom.ctrla, 7),
    {
        crate::dmac_regs::get_bit32(self.sercom.ctrla, 7)
    }

    /// Clear the named interrupt flags (writing a flag's bit clears it).
    pub fn clear_flags(&mut self, flags: Flags)
        ensures
            final(self).num == old(self).num,
            final(self).sercom == (SercomRegs {
                intflag: old(self).sercom.intflag & !flags.bits,
                ..old(self).sercom
            }),
    {
        self.sercom.intflag = self.sercom.intflag & !flags.bits;
    }

    /// Read the interrupt flags.
    pub fn read_flags(&self) -> (r: Flags)
        ensures
            r.bits == self.sercom.intflag,
    {
        Flags { bits: self.sercom.intflag }
    }

    /// Enable interrupt generation for the named flags.
    pub fn enable_interrupts(&mut self, flags: Flags)
        ensures
            final(self).num == old(self).num,
            final(self).sercom == (SercomRegs {
                intenset: old(self).sercom.intenset | flags.bits,
                ..old(self).sercom
            }),
    {
        self.sercom.intenset = self.sercom.intenset | flags.bits;
    }

    /// Disable interrupt generation for the named flags.
    pub fn disable_interrupts(&mut self, flags: Flags)
        ensures
            final(self).num == old(self).num,
            final(self).sercom == (SercomRegs {
                intenset: old(self).sercom.intenset & !flags.bits,
                ..old(self).sercom
            }),
    {
        self.sercom.intenset = self.sercom.intenset & !flags.bits;
    }

    /// Clear the named status bits (writing a bit clears it).
    pub fn clear_status(&mut self, status: Status)
        ensures
            final(self).num == old(self).num,
            final(self).sercom == (SercomRegs {
                status: old(self).sercom.status & !status.bits,
                ..old(self).sercom
            }),
    {
        self.sercom.status = self.sercom.status & !status.bits;
    }

    /// Read the status register.
    pub fn read_status(&self) -> (r: Status)
        ensures
            r.bits == self.sercom.status,
    {
        Status { bits: self.sercom.status }
    }

    /// Read the data register.
    pub fn read_data(&mut self) -> (r: u16)
        ensures
            r == old(self).sercom.data,
            *final(self) == *old(self),
    {
        self.sercom.data
    }

    /// Write the data register.
    pub fn write_data(&mut self, data: u16)
        ensures
            final(self).num == old(self).num,
            final(self).sercom == (SercomRegs { data, ..old(self).sercom }),
    {
        self.sercom.data = data;
    }

    /// Enable the engine (bit 1 of control A).
    pub fn enable(&mut self)
        ensures
            final(self).num == old(self).num,
            final(self).sercom == (SercomRegs {
                ctrla: crate::dmac_regs::spec_with_bit32(old(self).sercom.ctrla, 1, true),
                ..old(self).sercom
            }),
    {
        self.enable_peripheral(true);
    }

    /// Disable the engine.
    pub fn disable(&mut self)
        ensures
            final(self).num == old(self).num,
            final(self).sercom == (SercomRegs {
                ctrla: crate::dmac_regs::spec_with_bit32(old(self).sercom.ctrla, 1, false),
                ..old(self).sercom
            }),
    {
        self.enable_peripheral(false);
    }

    /// Enable or disable the engine; the hardware acknowledges by
    /// clearing the enable-synchronization bit once done.
    pub fn enable_peripheral(&mut self, enable: bool)
        ensures
            final(self).num == old(self).num,
            final(self).sercom == (SercomRegs {
                ctrla: crate::dmac_regs::spec_with_bit32(old(self).sercom.ctrla, 1, enable),
                ..old(self).sercom
            }),
    {
        self.sercom.ctrla = crate::dmac_regs::with_bit32(self.sercom.ctrla, 1, enable);
    }

    /// Program the address register for a DMA-backed bus write: the
    /// device address with the write direction, the transaction length,
    /// and the length-enable bit.
    pub fn start_dma_write(&mut self, address: u8, len: u8)
        requires
            address < 128,
        ensures
            final(self).num == old(self).num,
            final(self).sercom == (SercomRegs {
                addr: (((address as u32) << 1u32) | 0x2000u32) | ((len as u32) << 16u32),
                ..old(self).sercom
            }),
    {
        self.sercom.addr = (((address as u32) << 1u32) | 0x2000u32) | ((len as u32) << 16u32);
    }

    /// Program the address register for a DMA-backed bus read: the device
    /// address with the read direction, the transaction length, and the
    /// length-enable bit.
    pub fn start_dma_read(&mut self, address: u8, len: u8)
        requires
            address < 128,
        ensures
            final(self).num == old(self).num,
            final(self).sercom == (SercomRegs {
                addr: ((((address as u32) << 1u32) | 1u32) | 0x2000u32) | ((len as u32)
                    << 16u32),
                ..old(self).sercom
            }),
    {
        self.sercom.addr = ((((address as u32) << 1u32) | 1u32) | 0x2000u32) | ((len as u32)
            << 16u32);
    }
}

/// Marker for an already-multiplexed pad set bound to the engine; pin
/// configuration itself is outside this subsystem.
pub struct Pads;

/// Type-level operating mode of the engine.
pub trait OpMode {
    /// The mode-field encoding of this operating mode.
    spec fn spec_mode() -> u8;

    /// The mode-field encoding of this operating mode.
    fn mode_bits() -> (r: u8)
        ensures
            r == Self::spec_mode(),
            r < 8,
    ;
}

/// Operating mode: bus master.
pub struct Master;

/// Operating mode: bus device.
pub struct Slave;

impl OpMode for Master {
    open spec fn spec_mode() -> u8 {
        5
    }

    fn mode_bits() -> (r: u8) {
        5
    }
}

impl OpMode for Slave {
    open spec fn spec_mode() -> u8 {
        4
    }

    fn mode_bits() -> (r: u8) {
        4
    }
}

/// A configurable, disabled I2C engine: it owns the serial engine and the
/// pads, and records the configured clock frequency.
pub struct Config<M: OpMode> {
    /// Register-level access to the engine.
    pub registers: Registers,
    /// The pad set bound to the engine.
    pub pads: Pads,
    /// The configured clock frequency in hertz.
    pub freq_hz: u32,
    /// The operating mode.
    pub mode: PhantomData<M>,
}

/// Type class of every configuration value.
pub trait AnyConfig {

}

/// Marker for configurations whose pads and mode combination is usable.
pub trait ValidConfig: AnyConfig {

}

impl<M: OpMode> AnyConfig for Config<M> {

}

impl<M: OpMode> ValidConfig for Config<M> {

}

impl Config<Master> {
    /// Take ownership of a serial engine and its pads, reset the engine,
    /// and configure it as an I2C bus master with the given clock
    /// frequency.
    pub fn new(sercom: SercomRegs, num: u8, pads: Pads, freq_hz: u32) -> (r: Config<Master>)
        ensures
            r.registers.num == num,
            r.freq_hz == freq_hz,
            r.registers.sercom == (SercomRegs {
                ctrla: 0x14u32,
                ctrlb: 0u32,
                baud: 0u32,
                intenset: 0u8,
                intflag: 0u8,
                status: 0u16,
                addr: 0u32,
                data: 0u16,
                syncbusy: 0u32,
            }),
    {
        let mut registers = Registers::new(sercom, num);
        registers.swrst();
        registers.set_op_mode(MASTER_MODE_BITS);
        proof {
            assert((0u32 & !0x1Cu32) | ((5u8 as u32) << 2u32) == 0x14u32) by (bit_vector);
        }
        Config { registers, pads, freq_hz, mode: PhantomData }
    }
}

impl<M: OpMode> Config<M> {
    /// The underlying serial engine's registers.
    pub fn sercom(&self) -> (r: &SercomRegs)
        ensures
            *r == self.registers.sercom,
    {
        &self.registers.sercom
    }

    /// Reset the engine and return a master-mode configuration in the
    /// default state.
    pub fn reset(self) -> (r: Config<Master>)
        ensures
            r.registers.num == self.registers.num,
            r.freq_hz == self.freq_hz,
            r.registers.sercom.ctrla == 0x14u32,
    {
        Config::new(self.registers.sercom, self.registers.num, self.pads, self.freq_hz)
    }

    /// Reset the engine and release the serial engine and the pads.
    pub fn free(self) -> (r: (SercomRegs, Pads))
        ensures
            r.0 == (SercomRegs {
                ctrla: 0u32,
                ctrlb: 0u32,
                baud: 0u32,
                intenset: 0u8,
                intflag: 0u8,
                status: 0u16,
                addr: 0u32,
                data: 0u16,
                syncbusy: 0u32,
            }),
    {
        let mut registers = self.registers;
        registers.swrst();
        (registers.free(), self.pads)
    }

    /// Enable the engine: bus transactions are possible from here on.
    pub fn enable(self) -> (r: I2c<M>)
        ensures
            r.config.registers.num == self.registers.num,
            r.config.freq_hz == self.freq_hz,
            r.config.registers.sercom == (SercomRegs {
                ctrla: crate::dmac_regs::spec_with_bit32(self.registers.sercom.ctrla, 1, true),
                ..self.registers.sercom
            }),
    {
        let mut config = self;
        config.registers.enable();
        I2c { config }
    }
}

/// An enabled I2C engine.
pub struct I2c<M: OpMode> {
    /// The engine's configuration, which owns its registers.
    pub config: Config<M>,
}

/// Whether the bus is available for a new transaction: idle, or already
/// owned by this master.
pub open spec fn spec_bus_ok(status: u16) -> bool {
    ((status >> 4u16) & 3u16) == 1 || ((status >> 4u16) & 3u16) == 2
}

/// The bus fault recorded in the status register, if any: a bus error
/// outranks a lost arbitration, which outranks a missing acknowledge.
pub open spec fn spec_bus_fault(status: u16) -> Option<Error> {
    if spec_bit16(status, 0) {
        Some(Error::BusError)
    } else if spec_bit16(status, 1) {
        Some(Error::ArbitrationLost)
    } else if spec_bit16(status, 2) {
        Some(Error::Nack)
    } else {
        None
    }
}

impl<M: OpMode> I2c<M> {
    /// Handle to the engine's data register, for DMA transfers.
    pub fn data_ptr(&self) -> (r: SercomPtr)
        ensures
            r == SercomPtr(self.config.registers.num),
    {
        self.config.registers.data_ptr()
    }

    /// Read the interrupt flags.
    pub fn read_flags(&self) -> (r: Flags)
        ensures
            r.bits == self.config.registers.sercom.intflag,
    {
        self.config.registers.read_flags()
    }

    /// Clear the named interrupt flags.
    pub fn clear_flags(&mut self, flags: Flags)
        ensures
            final(self).config.registers.num == old(self).config.registers.num,
            final(self).config.freq_hz == old(self).config.freq_hz,
            final(self).config.registers.sercom == (SercomRegs {
                intflag: old(self).config.registers.sercom.intflag & !flags.bits,
                ..old(self).config.registers.sercom
            }),
    {
        self.config.registers.clear_flags(flags);
    }

    /// Enable interrupt generation for the named flags.
    pub fn enable_interrupts(&mut self, flags: Flags)
        ensures
            final(self).config.registers.num == old(self).config.registers.num,
            final(self).config.freq_hz == old(self).config.freq_hz,
            final(self).config.registers.sercom == (SercomRegs {
                intenset: old(self).config.registers.sercom.intenset | flags.bits,
                ..old(self).config.registers.sercom
            }),
    {
        self.config.registers.enable_interrupts(flags);
    }

    /// Disable interrupt generation for the named flags.
    pub fn disable_interrupts(&mut self, flags: Flags)
        ensures
            final(self).config.registers.num == old(self).config.registers.num,
            final(self).config.freq_hz == old(self).config.freq_hz,
            final(self).config.registers.sercom == (SercomRegs {
                intenset: old(self).config.registers.sercom.intenset & !flags.bits,
                ..old(self).config.registers.sercom
            }),
    {
        self.config.registers.disable_interrupts(flags);
    }

    /// Read the status register.
    pub fn read_status(&self) -> (r: Status)
        ensures
            r.bits == self.config.registers.sercom.status,
    {
        self.config.registers.read_status()
    }

    /// Clear the named status bits.
    pub fn clear_status(&mut self, status: Status)
        ensures
            final(self).config.registers.num == old(self).config.registers.num,
            final(self).config.freq_hz == old(self).config.freq_hz,
            final(self).config.registers.sercom == (SercomRegs {
                status: old(self).config.registers.sercom.status & !status.bits,
                ..old(self).config.registers.sercom
            }),
    {
        self.config.registers.clear_status(status);
    }

    /// Disable the engine and return the underlying configuration.
    pub fn disable(self) -> (r: Config<M>)
        ensures
            r.registers.num == self.config.registers.num,
            r.freq_hz == self.config.freq_hz,
            r.registers.sercom == (SercomRegs {
                ctrla: crate::dmac_regs::spec_with_bit32(
                    self.config.registers.sercom.ctrla,
                    1,
                    false,
                ),
                ..self.config.registers.sercom
            }),
    {
        let mut config = self.config;
        config.registers.disable();
        config
    }

    /// Whether the bus is available for a new transaction; refused with a
    /// bus error when another master owns the bus or its state is
    /// unknown.
    pub fn init_dma_transfer(&self) -> (r: Result<(), Error>)
        ensures
            r is Ok <==> spec_bus_ok(self.config.registers.sercom.status),
            r is Err ==> r == Result::<(), Error>::Err(Error::BusError),
    {
        let state = self.config.registers.read_status().bus_state();
        if state == BUS_STATE_IDLE as u16 || state == BUS_STATE_OWNER as u16 {
            Ok(())
        } else {
            Err(Error::BusError)
        }
    }

    /// Surface the bus fault recorded in the status register, if any.
    pub fn check_bus_status(&self) -> (r: Result<(), Error>)
        ensures
            ({
                let fault = spec_bus_fault(self.config.registers.sercom.status);
                match fault {
                    Some(e) => r == Result::<(), Error>::Err(e),
                    None => r is Ok,
                }
            }),
    {
        let status = self.config.registers.read_status();
        if get_bit16(status.bits, 0) {
            Err(Error::BusError)
        } else if get_bit16(status.bits, 1) {
            Err(Error::ArbitrationLost)
        } else if get_bit16(status.bits, 2) {
            Err(Error::Nack)
        } else {
            Ok(())
        }
    }
}

/// An I2C engine upgraded for asynchronous, DMA-backed transfers.
pub struct I2cFuture {
    /// The enabled engine.
    pub i2c: I2c<Master>,
}

impl I2cFuture {
    /// Upgrade an enabled engine for asynchronous use.
    pub fn new(i2c: I2c<Master>) -> (r: I2cFuture)
        ensures
            r.i2c.config == i2c.config,
    {
        I2cFuture { i2c }
    }

    /// Start a DMA-backed bus write: validate the bus state and the
    /// transaction length, program the address register with the write
    /// direction and length, and arm a DMA transfer that feeds the data
    /// register from `buf`, one beat per bus trigger. On refusal the
    /// channel and buffer are handed back untouched.
    ///
    /// The transaction length must be between 1 and 255 beats; a longer
    /// buffer is a programming error, excluded here by precondition.
    pub fn write_dma(
        &mut self,
        address: u8,
        buf: TransferBuffer,
        channel: Channel<ReadyFuture>,
        ctl: &mut DmaController<IrqsBound>,
    ) -> (r: Result<Transfer, (Channel<ReadyFuture>, TransferBuffer, Error)>)
        requires
            old(ctl).wf(),
            channel.wf(),
            buf.wf(),
            buf.spec_incrementing(),
            0 < buf.spec_len() <= 255,
            address < 128,
            old(self).i2c.config.registers.num < NUM_SERCOM,
        ensures
            final(ctl).wf(),
            r is Ok <==> spec_bus_ok(old(self).i2c.config.registers.sercom.status),
            r matches Err(e) ==> {
                &&& e.0 == channel
                &&& e.1 == buf
                &&& e.2 == Error::BusError
                &&& *final(self) == *old(self)
                &&& *final(ctl) == *old(ctl)
            },
            r matches Ok(t) ==> {
                &&& t.wf()
                &&& t.spec_id() == channel.spec_id()
                &&& t.spec_source() == buf
                &&& !t.spec_dest().spec_incrementing()
                &&& final(self).i2c.config.registers.sercom == (SercomRegs {
                    addr: (((address as u32) << 1u32) | 0x2000u32) | ((buf.spec_len() as u32)
                        << 16u32),
                    ..old(self).i2c.config.registers.sercom
                })
                &&& final(ctl).descriptors@ == old(ctl).descriptors@.update(
                    channel.spec_id() as int,
                    crate::transfer::spec_descriptor_for(true, false, buf.spec_len()),
                )
                &&& final(ctl).dmac.channel@[channel.spec_id() as int]
                    == crate::transfer::spec_armed_channel_regs(
                    old(ctl).dmac.channel@[channel.spec_id() as int],
                    spec_sercom_tx_trigger(old(self).i2c.config.registers.num),
                    TriggerAction::Beat,
                )
                &&& !final(ctl).wakers.spec_ready_at(channel.spec_id() as int)
            },
    {
        if let Err(e) = self.i2c.init_dma_transfer() {
            return Err((channel, buf, e));
        }
        let len = buf.buffer_len();
        self.i2c.config.registers.start_dma_write(address, len as u8);
        let dest = TransferBuffer::fixed(0, len);
        let trigger = sercom_tx_trigger(self.i2c.config.registers.num);
        let t = Transfer::transfer_future(channel, buf, dest, trigger, TriggerAction::Beat, ctl);
        Ok(t)
    }

    /// Start a DMA-backed bus read: validate the bus state and the
    /// transaction length, program the address register with the read
    /// direction and length, and arm a DMA transfer that drains the data
    /// register into `buf`, one beat per bus trigger. On refusal the
    /// channel and buffer are handed back untouched.
    ///
    /// The transaction length must be between 1 and 255 beats; a longer
    /// buffer is a programming error, excluded here by precondition.
    pub fn read_dma(
        &mut self,
        address: u8,
        buf: TransferBuffer,
        channel: Channel<ReadyFuture>,
        ctl: &mut DmaController<IrqsBound>,
    ) -> (r: Result<Transfer, (Channel<ReadyFuture>, TransferBuffer, Error)>)
        requires
            old(ctl).wf(),
            channel.wf(),
            buf.wf(),
            buf.spec_incrementing(),
            0 < buf.spec_len() <= 255,
            address < 128,
            old(self).i2c.config.registers.num < NUM_SERCOM,
        ensures
            final(ctl).wf(),
            r is Ok <==> spec_bus_ok(old(self).i2c.config.registers.sercom.status),
            r matches Err(e) ==> {
                &&& e.0 == channel
                &&& e.1 == buf
                &&& e.2 == Error::BusError
                &&& *final(self) == *old(self)
                &&& *final(ctl) == *old(ctl)
            },
            r matches Ok(t) ==> {
                &&& t.wf()
                &&& t.spec_id() == channel.spec_id()
                &&& t.spec_dest() == buf
                &&& !t.spec_source().spec_incrementing()
                &&& final(self).i2c.config.registers.sercom == (SercomRegs {
                    addr: ((((address as u32) << 1u32) | 1u32) | 0x2000u32) | ((buf.spec_len()
                        as u32) << 16u32),
                    ..old(self).i2c.config.registers.sercom
                })
                &&& final(ctl).descriptors@ == old(ctl).descriptors@.update(
                    channel.spec_id() as int,
                    crate::transfer::spec_descriptor_for(false, true, buf.spec_len()),
                )
                &&& final(ctl).dmac.channel@[channel.spec_id() as int]
                    == crate::transfer::spec_armed_channel_regs(
                    old(ctl).dmac.channel@[channel.spec_id() as int],
                    spec_sercom_rx_trigger(old(self).i2c.config.registers.num),
                    TriggerAction::Beat,
                )
                &&& !final(ctl).wakers.spec_ready_at(channel.spec_id() as int)
            },
    {
        if let Err(e) = self.i2c.init_dma_transfer() {
            return Err((channel, buf, e));
        }
        let len = buf.buffer_len();
        self.i2c.config.registers.start_dma_read(address, len as u8);
        let source = TransferBuffer::fixed(0, len);
        let trigger = sercom_rx_trigger(self.i2c.config.registers.num);
        let t = Transfer::transfer_future(channel, source, buf, trigger, TriggerAction::Beat, ctl);
        Ok(t)
    }

    /// Resume after the DMA transfer has been completed: a failed data
    /// movement surfaces as a bus error, and any bus fault recorded in
    /// the status register outranks success.
    pub fn finish_dma(&self, dma_result: Result<(), DmaError>) -> (r: Result<(), Error>)
        ensures
            dma_result is Err ==> r == Result::<(), Error>::Err(Error::BusError),
            dma_result is Ok ==> ({
                let fault = spec_bus_fault(self.i2c.config.registers.sercom.status);
                match fault {
                    Some(e) => r == Result::<(), Error>::Err(e),
                    None => r is Ok,
                }
            }),
    {
        if dma_result.is_err() {
            return Err(Error::BusError);
        }
        self.i2c.check_bus_status()
    }
}

} // verus!
