//! Hardware abstraction layer for the asynchronous peripheral + DMA transfer
//! subsystem of a family of SAMD microcontrollers.
//!
//! The crate models the hardware-visible state of the relevant peripherals
//! (DMA controller, SERCOM serial engines, timer/counters, the
//! analog-to-digital converter, the NVIC and the external interrupt
//! controller) as plain data, and verifies the driver
//! logic that runs against that state: the transfer-descriptor lifecycle,
//! the interrupt dispatch that services completion events, and the
//! waker/readiness protocol that bridges interrupt-context signals to
//! suspended application-context operations.
//!
//! A deterministic harness (tests, or a host application) plays the part of
//! the hardware by calling the `hw_*` event functions, and plays the part of
//! the cooperative scheduler by calling the `poll_*` functions with a waker.

pub mod interrupts;

pub mod waker;

pub mod dmac_regs;

pub mod dmac;

pub mod transfer;

pub mod timer;

pub mod sercom;

pub mod i2c;

pub mod spi;

pub mod eic;

pub mod adc;

pub mod pdec;

pub mod aes;
