//! The fallback diagnostic path for unrecoverable errors.
//!
//! A two-state machine: Normal until an unrecoverable error signal arrives,
//! Faulted from then on. On the transition the hook reads only from the
//! write-once diagnostic slots — never from the potentially corrupted heap
//! or stack of the failing context — and reports which diagnostic sources
//! were reachable. The Faulted state is terminal until an external reset:
//! no operation of the hook leaves it.

use vstd::prelude::*;
use crate::singleton::DiagnosticSlots;

verus! {

/// The two states of the recovery hook.
#[derive(Clone, Copy, Debug, PartialEq, Eq, Structural)]
pub enum RecoveryState {
    /// No unrecoverable error has been signalled.
    Normal,
    /// An unrecoverable error has been signalled; terminal.
    Faulted,
}

/// Which diagnostic sources the hook could reach when it ran: one flag for
/// each write-once slot, true exactly when that slot was set.
#[derive(Clone, Copy, Debug, PartialEq, Eq, Structural)]
pub struct DiagnosticReport {
    /// The process table was reachable.
    pub process_table_available: bool,
    /// The chip handle was reachable.
    pub chip_available: bool,
    /// The process text printer was reachable.
    pub process_printer_available: bool,
    /// The diagnostic transport was reachable.
    pub transport_available: bool,
    /// The power-control handle was reachable.
    pub power_available: bool,
}

/// The panic recovery hook.
pub struct PanicRecoveryHook {
    state: RecoveryState,
}

impl PanicRecoveryHook {
    /// The hook's current state.
    pub closed spec fn state(self) -> RecoveryState {
        self.state
    }

    /// Creates the hook in the Normal state.
    pub fn new() -> (h: Self)
        ensures
            h.state() == RecoveryState::Normal,
    {
        PanicRecoveryHook { state: RecoveryState::Normal }
    }

    /// Whether the hook has entered its terminal state.
    pub fn is_faulted(&self) -> (b: bool)
        ensures
            b == (self.state() == RecoveryState::Faulted),
    {
        match self.state {
            RecoveryState::Faulted => true,
            RecoveryState::Normal => false,
        }
    }

    /// The unrecoverable error signal: the one transition of the machine.
    /// Whatever state the hook was in, it is Faulted afterwards, and the
    /// report reflects exactly which diagnostic slots were set — the hook
    /// reads nothing but the slots.
    pub fn on_unrecoverable_error(&mut self, slots: &DiagnosticSlots) -> (report: DiagnosticReport)
        ensures
            final(self).state() == RecoveryState::Faulted,
            report.process_table_available == (slots.processes@ is Some),
            report.chip_available == (slots.chip@ is Some),
            report.process_printer_available == (slots.process_printer@ is Some),
            report.transport_available == (slots.transport@ is Some),
            report.power_available == (slots.power@ is Some),
    {
        self.state = RecoveryState::Faulted;
        DiagnosticReport {
            process_table_available: slots.processes.is_set(),
            chip_available: slots.chip.is_set(),
            process_printer_available: slots.process_printer.is_set(),
            transport_available: slots.transport.is_set(),
            power_available: slots.power.is_set(),
        }
    }
}
} // verus!
