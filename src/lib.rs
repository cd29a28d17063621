//! Bring-up logic for an NVMe storage controller on x86_64: PCI discovery,
//! register layout, admin queue rings, command encoding, Identify decoding and
//! the controller lifecycle, with ACPI table discovery beside them, each
//! stated and proved with Verus.
//!
//! The library performs no hardware access of its own. Configuration-space
//! reads are handed in as a function value, and the controller lifecycle is a
//! state machine whose caller performs each requested action and reports back.
pub mod acpi;
pub mod addr;
pub mod bytes;
pub mod command;
pub mod controller;
pub mod error;
pub mod frame;
pub mod identify;
pub mod pci;
pub mod regs;
pub mod ring;
