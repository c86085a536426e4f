//! The boot sequencer and the kernel model.
//!
//! Hardware bring-up is a single, non-reentrant procedure in a fixed total
//! order: low-level chip initialization, then allocation of the group of
//! peripherals that mutually reference one another, then an explicit
//! resolve step that wires the back-pointers (ownership cannot be
//! established before all parties exist), then the clock and oscillator
//! start, then the debug-GPIO assignment. Each step's contract demands the
//! previous step's stage, so no step can run out of order and none can run
//! twice. There is no partial-boot state to fall back to: a sequencer value
//! only ever reaches the kernel through `finish`, which demands that every
//! step has completed.

use vstd::prelude::*;
use crate::bootloader::PowerRegisters;
use crate::capability::{MainLoopCapability, SetDebugWriterCapability};
use crate::registry::Platform;

verus! {

/// How far the boot sequence has come.
#[derive(Clone, Copy, Debug, PartialEq, Eq, Structural)]
pub enum BootStage {
    /// Nothing has run.
    Fresh,
    /// Low-level chip initialization is done.
    ChipReady,
    /// The mutually-referencing peripherals exist as bare storage.
    PeripheralsAllocated,
    /// The back-pointers between the peripherals are wired.
    CircularResolved,
    /// The free-running clocks and oscillators are started.
    ClocksStarted,
    /// The debug-diagnostic pin is assigned; boot is complete.
    DebugGpioAssigned,
}

/// The chip's peripheral group as it stands after boot.
pub struct Peripherals {
    /// The power controller with its retained register.
    pub power: PowerRegisters,
    /// Whether the circular references between peripherals are resolved.
    pub wired: bool,
    /// Whether the free-running clocks are started.
    pub clock_running: bool,
    /// The pin assigned for debug diagnostics, if any.
    pub debug_pin: Option<u32>,
}

/// The chip handle handed to the host kernel loop: it owns the peripheral
/// group for the rest of the process lifetime.
pub struct Chip {
    /// The peripheral group.
    pub peripherals: Peripherals,
}

/// The boot sequencer. One value of this type is created at the start of
/// the process and driven through the five steps in order.
pub struct BootSequencer {
    stage: BootStage,
    power: Option<PowerRegisters>,
    wired: bool,
    clock_running: bool,
    debug_pin: Option<u32>,
}

impl BootSequencer {
    /// How far this sequencer has come.
    pub closed spec fn stage(self) -> BootStage {
        self.stage
    }

    /// The power controller, once allocated.
    pub closed spec fn power(self) -> Option<PowerRegisters> {
        self.power
    }

    /// Whether the circular peripheral references are resolved.
    pub closed spec fn wired(self) -> bool {
        self.wired
    }

    /// Whether the free-running clocks are started.
    pub closed spec fn clock_running(self) -> bool {
        self.clock_running
    }

    /// The assigned debug pin, if any.
    pub closed spec fn debug_pin(self) -> Option<u32> {
        self.debug_pin
    }

    /// Creates a fresh sequencer: nothing initialized, nothing allocated.
    pub fn new() -> (s: Self)
        ensures
            s.stage() == BootStage::Fresh,
    {
        BootSequencer {
            stage: BootStage::Fresh,
            power: None,
            wired: false,
            clock_running: false,
            debug_pin: None,
        }
    }

    /// Step one: low-level chip initialization. Must run before anything
    /// else, and cannot run twice.
    pub fn chip_init(&mut self)
        requires
            old(self).stage() == BootStage::Fresh,
        ensures
            final(self).stage() == BootStage::ChipReady,
            final(self).power() == old(self).power(),
            final(self).wired() == old(self).wired(),
            final(self).clock_running() == old(self).clock_running(),
            final(self).debug_pin() == old(self).debug_pin(),
    {
        self.stage = BootStage::ChipReady;
    }

    /// Step two: allocate the group of mutually-referencing peripherals as
    /// bare storage. The power controller comes out of power-on cleared,
    /// with nothing written to its retained register; the back-pointers are
    /// not wired yet.
    pub fn allocate_peripherals(&mut self)
        requires
            old(self).stage() == BootStage::ChipReady,
        ensures
            final(self).stage() == BootStage::PeripheralsAllocated,
            final(self).power() matches Some(p) && p.gpregret() == 0 && p.writes() == Seq::<
                u8,
            >::empty(),
            !final(self).wired(),
            !final(self).clock_running(),
    {
        self.power = Some(PowerRegisters::new());
        self.wired = false;
        self.clock_running = false;
        self.stage = BootStage::PeripheralsAllocated;
    }

    /// Step three: resolve the circular dependencies — wire the
    /// back-pointers between the peripherals allocated in step two.
    pub fn resolve_circular_dependencies(&mut self)
        requires
            old(self).stage() == BootStage::PeripheralsAllocated,
        ensures
            final(self).stage() == BootStage::CircularResolved,
            final(self).wired(),
            final(self).power() == old(self).power(),
            final(self).clock_running() == old(self).clock_running(),
    {
        self.wired = true;
        self.stage = BootStage::CircularResolved;
    }

    /// Step four: start the free-running clocks and oscillators that other
    /// components depend on.
    pub fn start_clocks(&mut self)
        requires
            old(self).stage() == BootStage::CircularResolved,
        ensures
            final(self).stage() == BootStage::ClocksStarted,
            final(self).clock_running(),
            final(self).power() == old(self).power(),
            final(self).wired() == old(self).wired(),
    {
        self.clock_running = true;
        self.stage = BootStage::ClocksStarted;
    }

    /// Step five: assign the debug-diagnostic pin, so that diagnostics are
    /// usable for the remainder of boot and of kernel execution.
    pub fn assign_debug_gpio(&mut self, pin: u32)
        requires
            old(self).stage() == BootStage::ClocksStarted,
        ensures
            final(self).stage() == BootStage::DebugGpioAssigned,
            final(self).debug_pin() == Some(pin),
            final(self).power() == old(self).power(),
            final(self).wired() == old(self).wired(),
            final(self).clock_running() == old(self).clock_running(),
    {
        self.debug_pin = Some(pin);
        self.stage = BootStage::DebugGpioAssigned;
    }

    /// Hands the finished peripheral group to the kernel. Only a sequencer
    /// that has completed every step can be finished: there is no partial
    /// result to extract.
    pub fn finish(self) -> (chip: Chip)
        requires
            self.stage() == BootStage::DebugGpioAssigned,
            self.power() is Some,
            self.wired(),
            self.clock_running(),
        ensures
            chip.peripherals.power == self.power()->Some_0,
            chip.peripherals.wired,
            chip.peripherals.clock_running,
            chip.peripherals.debug_pin == self.debug_pin(),
    {
        let power = match self.power {
            Some(p) => p,
            None => vstd::pervasive::unreached(),
        };
        Chip {
            peripherals: Peripherals {
                power,
                wired: self.wired,
                clock_running: self.clock_running,
                debug_pin: self.debug_pin,
            },
        }
    }
}

/// The core kernel data structure, as far as this composition layer reads
/// and writes it: the number of process slots it was created over, whether
/// its debug writer is installed, and whether its main loop has been
/// entered.
pub struct Kernel {
    num_procs: usize,
    debug_writer_installed: bool,
    in_main_loop: bool,
}

impl Kernel {
    /// The number of process slots the kernel was created over.
    pub closed spec fn num_procs(self) -> usize {
        self.num_procs
    }

    /// Whether the debug writer has been installed.
    pub closed spec fn debug_writer_installed(self) -> bool {
        self.debug_writer_installed
    }

    /// Whether the main loop has been entered.
    pub closed spec fn in_main_loop(self) -> bool {
        self.in_main_loop
    }

    /// Creates the kernel over a fixed number of process slots.
    pub fn new(num_procs: usize) -> (k: Self)
        ensures
            k.num_procs() == num_procs,
            !k.debug_writer_installed(),
            !k.in_main_loop(),
    {
        Kernel { num_procs, debug_writer_installed: false, in_main_loop: false }
    }

    /// Installs the debug writer: a protected operation, gated by its
    /// token, and done at most once.
    pub fn install_debug_writer(&mut self, _cap: &SetDebugWriterCapability)
        requires
            !old(self).debug_writer_installed(),
        ensures
            final(self).debug_writer_installed(),
            final(self).num_procs() == old(self).num_procs(),
            final(self).in_main_loop() == old(self).in_main_loop(),
    {
        self.debug_writer_installed = true;
    }

    /// Enters the main loop: a protected operation, gated by its token.
    /// Non-reentrant — the loop is entered at most once, and only over a
    /// well-formed registry.
    pub fn begin_main_loop(&mut self, platform: &Platform, _cap: &MainLoopCapability)
        requires
            !old(self).in_main_loop(),
            platform.wf(),
        ensures
            final(self).in_main_loop(),
            final(self).num_procs() == old(self).num_procs(),
            final(self).debug_writer_installed() == old(self).debug_writer_installed(),
    {
        self.in_main_loop = true;
    }

    /// Whether the main loop has been entered, readable at runtime.
    pub fn is_in_main_loop(&self) -> (b: bool)
        ensures
            b == self.in_main_loop(),
    {
        self.in_main_loop
    }
}

/// A linker-defined address range, handed as a raw byte range to the
/// external process loader. This core computes the bounds but never
/// interprets the contents.
#[derive(Clone, Copy, Debug, PartialEq, Eq, Structural)]
pub struct AddressRange {
    /// First address of the range.
    pub start: usize,
    /// Length of the range in bytes.
    pub len: usize,
}

/// Computes the bounds of a linker-defined region from its start and end
/// addresses.
pub fn compute_app_region(start_addr: usize, end_addr: usize) -> (r: AddressRange)
    requires
        start_addr <= end_addr,
    ensures
        r.start == start_addr,
        r.len == end_addr - start_addr,
{
    AddressRange { start: start_addr, len: end_addr - start_addr }
}

} // verus!
