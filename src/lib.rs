//! Power-on sequencing for a server compute complex behind an FPGA
//! sequencer: rail bring-up, sequencer bitstream loading with bounded retry,
//! the byte-register protocol to the loaded design, and the power-state
//! machine served to other tasks.
//!
//! Every piece of outside work (GPIO, SPI, I2C, sleeping, the flash-mux
//! service, the image decompressor) is performed by the caller: each engine
//! here decides what to do next from what the previous piece of work
//! reported, and its contract states that decision exactly.
//!
//! - `rails`: bring-up of the FPGA's own supply rails.
//! - `loader`: the three-phase image load and its retry policy.
//! - `startup`: rails, identity probe, conditional reprogramming, and the
//!   wait for the design's power control to settle.
//! - `seq_spi`: the register transactions and what the design does with them.
//! - `power`: the power-state machine and the fan controls.
//! - `clock`: the clock-generator programming run.
//! - `hf`: the host flash service's error codes and mux positions.

pub mod clock;
pub mod hf;
pub mod loader;
pub mod power;
pub mod rails;
pub mod seq_spi;
pub mod startup;
