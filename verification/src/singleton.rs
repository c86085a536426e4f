//! Write-once slots for emergency diagnostics.
//!
//! The panic path must reach a few references without depending on normal
//! runtime state, which may be corrupted. Each slot is created empty at
//! process start, set exactly once during boot — before any concurrent or
//! interrupt-driven access — and read-only for the rest of the process
//! lifetime. The write-once-before-read discipline substitutes for locking.

use vstd::prelude::*;

verus! {

/// An optional, process-wide reference slot, written at most once.
pub struct SingletonSlot<T> {
    value: Option<T>,
}

impl<T> View for SingletonSlot<T> {
    type V = Option<T>;

    closed spec fn view(&self) -> Option<T> {
        self.value
    }
}

impl<T> SingletonSlot<T> {
    /// Creates the slot empty.
    pub fn empty() -> (s: Self)
        ensures
            s@ is None,
    {
        SingletonSlot { value: None }
    }

    /// Fills the slot. A slot is written at most once: filling is only
    /// permitted while the slot is still empty.
    pub fn set(&mut self, v: T)
        requires
            old(self)@ is None,
        ensures
            final(self)@ == Some(v),
    {
        self.value = Some(v);
    }

    /// Whether the slot has been filled.
    pub fn is_set(&self) -> (b: bool)
        ensures
            b == (self@ is Some),
    {
        self.value.is_some()
    }

    /// Reads the slot: the filled value, or nothing while still empty.
    pub fn get(&self) -> (r: Option<&T>)
        ensures
            match r {
                Some(v) => self@ == Some(*v),
                None => self@ is None,
            },
    {
        self.value.as_ref()
    }
}

/// The process table handle kept for diagnostics.
#[derive(Clone, Copy, Debug, PartialEq, Eq, Structural)]
pub struct ProcessTableHandle {
    /// How many concurrent processes the table has room for.
    pub num_slots: usize,
}

/// The chip handle kept for diagnostics.
#[derive(Clone, Copy, Debug, PartialEq, Eq, Structural)]
pub struct ChipHandle {
    /// Whether the chip's mutually-referencing peripherals have been wired.
    pub peripherals_wired: bool,
}

/// The process text printer handle kept for diagnostics.
#[derive(Clone, Copy, Debug, PartialEq, Eq, Structural)]
pub struct ProcessPrinterHandle {}

/// The diagnostic transport handle kept for diagnostics.
#[derive(Clone, Copy, Debug, PartialEq, Eq, Structural)]
pub struct TransportHandle {
    /// The configured line rate of the transport.
    pub baud_rate: u32,
}

/// The power-control handle kept for the bootloader re-entry path.
#[derive(Clone, Copy, Debug, PartialEq, Eq, Structural)]
pub struct PowerHandle {}

/// The write-once slots the panic path and the bootloader re-entry path
/// read: process table, chip, process text printer, diagnostic transport,
/// and power control. All five are set during boot, before any interrupt
/// that could reach them is unmasked.
pub struct DiagnosticSlots {
    /// The process table.
    pub processes: SingletonSlot<ProcessTableHandle>,
    /// The chip.
    pub chip: SingletonSlot<ChipHandle>,
    /// The process text printer.
    pub process_printer: SingletonSlot<ProcessPrinterHandle>,
    /// The diagnostic transport.
    pub transport: SingletonSlot<TransportHandle>,
    /// The power-control handle.
    pub power: SingletonSlot<PowerHandle>,
}

impl DiagnosticSlots {
    /// All five slots have been filled.
    pub open spec fn all_set(self) -> bool {
        &&& self.processes@ is Some
        &&& self.chip@ is Some
        &&& self.process_printer@ is Some
        &&& self.transport@ is Some
        &&& self.power@ is Some
    }

    /// Creates every slot empty, at start of process.
    pub fn new() -> (s: Self)
        ensures
            s.processes@ is None,
            s.chip@ is None,
            s.process_printer@ is None,
            s.transport@ is None,
            s.power@ is None,
    {
        DiagnosticSlots {
            processes: SingletonSlot::empty(),
            chip: SingletonSlot::empty(),
            process_printer: SingletonSlot::empty(),
            transport: SingletonSlot::empty(),
            power: SingletonSlot::empty(),
        }
    }
}

} // verus!
