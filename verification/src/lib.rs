//! Target-mode driver core for a MIPI I3C controller peripheral.
//!
//! The driver programs a memory-mapped register block in a fixed bring-up
//! order, validates the static configuration, issues Hot-Join requests at
//! runtime, and dispatches the peripheral's single event interrupt line to a
//! per-instance notification slot.
//!
//! The register block is modelled as a recording register file
//! ([`regs::RegisterBlock`]): every register holds its named fields as plain
//! values, and every hardware-visible step is appended to a write log, so the
//! bring-up ordering rules are stated and proved over that log.  An embedding
//! applies the programmed values and the recorded actions to the real
//! hardware, performs the wake actions that the event dispatcher returns, and
//! feeds hardware events back in.

pub mod config;
pub mod events;
pub mod regs;
pub mod state;
pub mod target;
