//! Composition core of a single-board embedded runtime.
//!
//! The crate models the hard, reusable part of a board's bring-up code: a
//! deterministic, non-reentrant boot sequence that resolves circular
//! peripheral dependencies and fills write-once diagnostic slots, a
//! syscall-number-indexed driver registry that the kernel main loop queries
//! for the rest of the device's life, and a display-virtualization scheme
//! that partitions one physical screen among several untrusted processes by
//! a stable hashed identity.

pub mod boot;
pub mod bootloader;
pub mod capability;
pub mod checksum;
pub mod panic_hook;
pub mod registry;
pub mod screen;
pub mod singleton;

use vstd::prelude::*;
use crate::boot::{BootSequencer, Chip, Kernel};
use crate::capability::{issue_memory_allocation_capability, issue_set_debug_writer_capability};
use crate::registry::{
    new_ipc_driver, DriverHandle, DriverKind, NoopContextSwitchCallback, NoopProcessFault,
    NoopSyscallFilter, NoopWatchdog, Platform, ProcessConsole, RoundRobinSched, ScreenDriver,
    SysTick, DRIVER_NUM_ADC, DRIVER_NUM_ALARM, DRIVER_NUM_BLE_ADVERTISING, DRIVER_NUM_BUTTON,
    DRIVER_NUM_CONSOLE, DRIVER_NUM_GPIO, DRIVER_NUM_IEEE802154, DRIVER_NUM_LED, DRIVER_NUM_RNG,
    DRIVER_NUM_SCREEN, DRIVER_NUM_UDP,
};
use crate::screen::{
    build_app_regions, lemma_configuration_disjoint, regions_pairwise_disjoint, spec_app_regions,
    ScreenRegions,
};
use crate::singleton::{
    ChipHandle, DiagnosticSlots, PowerHandle, ProcessPrinterHandle, ProcessTableHandle,
    TransportHandle,
};

verus! {

/// Number of concurrent processes this platform supports.
pub const NUM_PROCS: usize = 8;

/// The pin carrying the board's LED, doubling as the debug-diagnostic pin.
pub const LED_PIN: u32 = 43;

/// The line rate of the diagnostic transport.
pub const TRANSPORT_BAUD_RATE: u32 = 115200;

/// The calibration frequency of the scheduler timer, in hertz.
pub const SYSTICK_HERTZ: u32 = 64000000;

/// Everything boot constructs, handed to the host kernel loop for the rest
/// of the device's operation.
pub struct Board {
    /// The core kernel data structure.
    pub kernel: Kernel,
    /// The driver registry and kernel resources.
    pub platform: Platform,
    /// The chip with its wired peripheral group.
    pub chip: Chip,
    /// The write-once diagnostic slots.
    pub slots: DiagnosticSlots,
}

/// One-time board bring-up: runs the five boot steps in their fixed order,
/// fills every write-once diagnostic slot, constructs every driver capsule
/// and moves them into one immutable registry, and hands the lot to the
/// caller, which enters the host kernel loop. On return the registry is
/// well formed, the display carries exactly the fixed region configuration,
/// the peripherals are wired and clocked, nothing has been written to the
/// retained bootloader register, and the main loop has not been entered.
pub fn start() -> (board: Board)
    ensures
        board.platform.wf(),
        board.platform.screen.regions@ == spec_app_regions(),
        regions_pairwise_disjoint(board.platform.screen.regions@),
        board.platform.pconsole.started,
        board.platform.scheduler.num_procs == NUM_PROCS,
        board.platform.systick.hertz == SYSTICK_HERTZ,
        board.slots.all_set(),
        board.chip.peripherals.wired,
        board.chip.peripherals.clock_running,
        board.chip.peripherals.debug_pin == Some(LED_PIN),
        board.chip.peripherals.power.gpregret() == 0,
        board.chip.peripherals.power.writes() == Seq::<u8>::empty(),
        board.kernel.num_procs() == NUM_PROCS,
        board.kernel.debug_writer_installed(),
        !board.kernel.in_main_loop(),
{
    // The five strictly ordered bring-up steps. Each demands the stage the
    // previous one established, so the order cannot be disturbed and no
    // step can run twice.
    let mut sequencer = BootSequencer::new();
    sequencer.chip_init();
    sequencer.allocate_peripherals();
    sequencer.resolve_circular_dependencies();
    sequencer.start_clocks();
    sequencer.assign_debug_gpio(LED_PIN);

    // Fill the write-once diagnostic slots, so that the panic path and the
    // bootloader re-entry path can reach them without touching runtime
    // state.
    let mut slots = DiagnosticSlots::new();
    slots.power.set(PowerHandle {});
    slots.processes.set(ProcessTableHandle { num_slots: NUM_PROCS });
    slots.chip.set(ChipHandle { peripherals_wired: true });
    slots.transport.set(TransportHandle { baud_rate: TRANSPORT_BAUD_RATE });
    slots.process_printer.set(ProcessPrinterHandle {});

    // The core kernel over the fixed process table, its debug writer
    // installed under the one issued token.
    let mut kernel = Kernel::new(NUM_PROCS);
    let debug_writer_capability = issue_set_debug_writer_capability();
    kernel.install_debug_writer(&debug_writer_capability);

    // The display configuration and the interactive console.
    let regions = ScreenRegions::new(build_app_regions());
    let mut pconsole = ProcessConsole::new();
    pconsole.start();

    // Construct every capsule and move it into the one registry. The
    // inter-process communication driver demands the memory-allocation
    // token.
    let memory_allocation_capability = issue_memory_allocation_capability();
    let platform = Platform {
        ble_radio: DriverHandle {
            kind: DriverKind::BleAdvertising,
            driver_num: DRIVER_NUM_BLE_ADVERTISING,
        },
        ieee802154_radio: DriverHandle {
            kind: DriverKind::Ieee802154,
            driver_num: DRIVER_NUM_IEEE802154,
        },
        console: DriverHandle { kind: DriverKind::Console, driver_num: DRIVER_NUM_CONSOLE },
        pconsole,
        gpio: DriverHandle { kind: DriverKind::Gpio, driver_num: DRIVER_NUM_GPIO },
        led: DriverHandle { kind: DriverKind::Led, driver_num: DRIVER_NUM_LED },
        adc: DriverHandle { kind: DriverKind::Adc, driver_num: DRIVER_NUM_ADC },
        rng: DriverHandle { kind: DriverKind::Rng, driver_num: DRIVER_NUM_RNG },
        ipc: new_ipc_driver(&memory_allocation_capability),
        alarm: DriverHandle { kind: DriverKind::Alarm, driver_num: DRIVER_NUM_ALARM },
        button: DriverHandle { kind: DriverKind::Button, driver_num: DRIVER_NUM_BUTTON },
        screen: ScreenDriver {
            handle: DriverHandle { kind: DriverKind::Screen, driver_num: DRIVER_NUM_SCREEN },
            regions,
        },
        udp_driver: DriverHandle { kind: DriverKind::Udp, driver_num: DRIVER_NUM_UDP },
        scheduler: RoundRobinSched { num_procs: NUM_PROCS },
        systick: SysTick { hertz: SYSTICK_HERTZ },
        syscall_filter_policy: NoopSyscallFilter {},
        process_fault_policy: NoopProcessFault {},
        watchdog_policy: NoopWatchdog {},
        context_switch_policy: NoopContextSwitchCallback {},
    };

    let chip = sequencer.finish();
    proof {
        lemma_configuration_disjoint();
    }
    Board { kernel, platform, chip, slots }
}

} // verus!
