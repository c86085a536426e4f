//! The bootloader re-entry protocol.
//!
//! Writing one fixed value into a retained hardware register and then
//! resetting signals the second-stage bootloader to remain in programming
//! mode instead of resuming the application. The value is part of the
//! external contract with the bootloader and must not change.

use vstd::prelude::*;

verus! {

/// The one value the bootloader expects in the retained register.
pub const BOOTLOADER_ENTER_MAGIC: u8 = 0x90;

/// What the caller must do next after the re-entry path has run.
#[derive(Clone, Copy, Debug, PartialEq, Eq, Structural)]
pub enum SystemAction {
    /// Trigger a full system reset.
    Reset,
}

/// The power controller's retained general-purpose register, which survives
/// a system reset. Beside the register's current value, the model keeps the
/// whole history of values written, so that a contract can state not only
/// what the register holds but that nothing else was ever written.
pub struct PowerRegisters {
    gpregret: u8,
    writes: Ghost<Seq<u8>>,
}

impl PowerRegisters {
    /// The register's current value.
    pub closed spec fn gpregret(self) -> u8 {
        self.gpregret
    }

    /// Every value ever written to the register, oldest first.
    pub closed spec fn writes(self) -> Seq<u8> {
        self.writes@
    }

    /// The register as it comes out of power-on: cleared, nothing written.
    pub fn new() -> (r: Self)
        ensures
            r.gpregret() == 0,
            r.writes() == Seq::<u8>::empty(),
    {
        PowerRegisters { gpregret: 0, writes: Ghost(Seq::empty()) }
    }

    /// Writes one value into the retained register.
    pub fn set_gpregret(&mut self, v: u8)
        ensures
            final(self).gpregret() == v,
            final(self).writes() == old(self).writes().push(v),
    {
        let ghost history = self.writes@;
        self.gpregret = v;
        self.writes = Ghost(history.push(v));
    }

    /// Reads the retained register.
    pub fn read_gpregret(&self) -> (v: u8)
        ensures
            v == self.gpregret(),
    {
        self.gpregret
    }
}

/// The bootloader re-entry path: writes exactly the magic value — once, and
/// no other value ever goes through this path — and then demands a system
/// reset. The bootloader will find the magic in the retained register and
/// stay in programming mode.
pub fn baud_rate_reset_bootloader_enter(power: &mut PowerRegisters) -> (action: SystemAction)
    ensures
        final(power).gpregret() == BOOTLOADER_ENTER_MAGIC,
        final(power).writes() == old(power).writes().push(BOOTLOADER_ENTER_MAGIC),
        action == SystemAction::Reset,
{
    power.set_gpregret(BOOTLOADER_ENTER_MAGIC);
    SystemAction::Reset
}

} // verus!
