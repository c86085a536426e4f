use makepython_nrf52840::boot::{compute_app_region, BootSequencer, BootStage, Kernel};
use makepython_nrf52840::bootloader::{
    baud_rate_reset_bootloader_enter, PowerRegisters, SystemAction, BOOTLOADER_ENTER_MAGIC,
};
use makepython_nrf52840::capability::{
    issue_main_loop_capability, issue_memory_allocation_capability,
    issue_set_debug_writer_capability,
};
use makepython_nrf52840::panic_hook::PanicRecoveryHook;
use makepython_nrf52840::registry::{new_ipc_driver, DriverKind, FaultPolicy, FAULT_RESPONSE};
use makepython_nrf52840::singleton::{DiagnosticSlots, SingletonSlot};
use makepython_nrf52840::{start, NUM_PROCS};

#[test]
fn start_fills_every_diagnostic_slot() {
    let board = start();
    assert!(board.slots.processes.is_set());
    assert!(board.slots.chip.is_set());
    assert!(board.slots.process_printer.is_set());
    assert!(board.slots.transport.is_set());
    assert!(board.slots.power.is_set());
    assert_eq!(board.slots.processes.get().unwrap().num_slots, NUM_PROCS);
    assert_eq!(board.slots.transport.get().unwrap().baud_rate, 115200);
}

#[test]
fn start_leaves_the_main_loop_not_yet_entered() {
    let mut board = start();
    assert!(!board.kernel.is_in_main_loop());
    assert!(board.platform.pconsole.started);
    let cap = issue_main_loop_capability();
    board.kernel.begin_main_loop(&board.platform, &cap);
    assert!(board.kernel.is_in_main_loop());
}

#[test]
fn boot_steps_run_in_their_fixed_order() {
    let mut sequencer = BootSequencer::new();
    sequencer.chip_init();
    sequencer.allocate_peripherals();
    sequencer.resolve_circular_dependencies();
    sequencer.start_clocks();
    sequencer.assign_debug_gpio(43);
    let chip = sequencer.finish();
    assert!(chip.peripherals.wired);
    assert!(chip.peripherals.clock_running);
    assert_eq!(chip.peripherals.debug_pin, Some(43));
    assert_eq!(chip.peripherals.power.read_gpregret(), 0);
}

#[test]
fn bootloader_reentry_writes_exactly_the_magic_value() {
    let mut power = PowerRegisters::new();
    assert_eq!(power.read_gpregret(), 0);
    let action = baud_rate_reset_bootloader_enter(&mut power);
    assert_eq!(action, SystemAction::Reset);
    assert_eq!(power.read_gpregret(), BOOTLOADER_ENTER_MAGIC);
    assert_eq!(power.read_gpregret(), 0x90);
}

#[test]
fn fresh_board_has_nothing_in_the_retained_register() {
    let board = start();
    assert_eq!(board.chip.peripherals.power.read_gpregret(), 0);
}

#[test]
fn panic_hook_reports_what_the_slots_hold_and_faults() {
    let board = start();
    let mut hook = PanicRecoveryHook::new();
    assert!(!hook.is_faulted());
    let report = hook.on_unrecoverable_error(&board.slots);
    assert!(hook.is_faulted());
    assert!(report.process_table_available);
    assert!(report.chip_available);
    assert!(report.process_printer_available);
    assert!(report.transport_available);
    assert!(report.power_available);
}

#[test]
fn panic_hook_with_empty_slots_reports_nothing_reachable() {
    let slots = DiagnosticSlots::new();
    let mut hook = PanicRecoveryHook::new();
    let report = hook.on_unrecoverable_error(&slots);
    assert!(hook.is_faulted());
    assert!(!report.process_table_available);
    assert!(!report.chip_available);
    assert!(!report.process_printer_available);
    assert!(!report.transport_available);
    assert!(!report.power_available);
}

#[test]
fn singleton_slot_is_empty_until_set() {
    let mut slot: SingletonSlot<u32> = SingletonSlot::empty();
    assert!(!slot.is_set());
    assert_eq!(slot.get(), None);
    slot.set(7);
    assert!(slot.is_set());
    assert_eq!(slot.get(), Some(&7));
}

#[test]
fn ipc_construction_demands_the_memory_allocation_token() {
    let cap = issue_memory_allocation_capability();
    let ipc = new_ipc_driver(&cap);
    assert_eq!(ipc.kind, DriverKind::Ipc);
    assert_eq!(ipc.driver_num, 0x10000);
}

#[test]
fn debug_writer_installs_once_under_its_token() {
    let mut kernel = Kernel::new(NUM_PROCS);
    let cap = issue_set_debug_writer_capability();
    kernel.install_debug_writer(&cap);
}

#[test]
fn app_region_bounds_are_end_minus_start() {
    let flash = compute_app_region(0x40000, 0x80000);
    assert_eq!(flash.start, 0x40000);
    assert_eq!(flash.len, 0x40000);
    let ram = compute_app_region(0x2000_8000, 0x2004_0000);
    assert_eq!(ram.start, 0x2000_8000);
    assert_eq!(ram.len, 0x38000);
    let empty = compute_app_region(0x1000, 0x1000);
    assert_eq!(empty.len, 0);
}

#[test]
fn fault_response_stops_the_app_and_reports() {
    assert_eq!(FAULT_RESPONSE, FaultPolicy::StopWithDebug);
}

#[test]
fn boot_stage_values_are_distinct() {
    assert_ne!(BootStage::Fresh, BootStage::ChipReady);
    assert_ne!(BootStage::PeripheralsAllocated, BootStage::CircularResolved);
    assert_ne!(BootStage::ClocksStarted, BootStage::DebugGpioAssigned);
}
