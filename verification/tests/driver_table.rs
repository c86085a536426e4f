use makepython_nrf52840::registry::{
    DriverHandle, DriverKind, DRIVER_NUM_ADC, DRIVER_NUM_ALARM, DRIVER_NUM_BLE_ADVERTISING,
    DRIVER_NUM_BUTTON, DRIVER_NUM_CONSOLE, DRIVER_NUM_GPIO, DRIVER_NUM_IEEE802154, DRIVER_NUM_IPC,
    DRIVER_NUM_LED, DRIVER_NUM_RNG, DRIVER_NUM_SCREEN, DRIVER_NUM_UDP,
};
use makepython_nrf52840::{start, NUM_PROCS, SYSTICK_HERTZ};

#[test]
fn lookup_returns_present_handle_for_every_table_number() {
    let board = start();
    let table = [
        (DRIVER_NUM_ALARM, DriverKind::Alarm),
        (DRIVER_NUM_CONSOLE, DriverKind::Console),
        (DRIVER_NUM_LED, DriverKind::Led),
        (DRIVER_NUM_BUTTON, DriverKind::Button),
        (DRIVER_NUM_GPIO, DriverKind::Gpio),
        (DRIVER_NUM_ADC, DriverKind::Adc),
        (DRIVER_NUM_IPC, DriverKind::Ipc),
        (DRIVER_NUM_BLE_ADVERTISING, DriverKind::BleAdvertising),
        (DRIVER_NUM_IEEE802154, DriverKind::Ieee802154),
        (DRIVER_NUM_UDP, DriverKind::Udp),
        (DRIVER_NUM_RNG, DriverKind::Rng),
        (DRIVER_NUM_SCREEN, DriverKind::Screen),
    ];
    for (num, kind) in table {
        let handle = board.platform.lookup(num);
        assert_eq!(handle, Some(DriverHandle { kind, driver_num: num }));
    }
}

#[test]
fn lookup_returns_absent_for_numbers_outside_the_table() {
    let board = start();
    for num in [
        0x00006usize,
        0x00007,
        0x0ffff,
        0x10001,
        0x2ffff,
        0x30003,
        0x40000,
        0x40002,
        0x90000,
        0x90002,
        usize::MAX,
    ] {
        assert_eq!(board.platform.lookup(num), None);
    }
}

#[test]
fn lookup_is_stable_across_repeated_calls() {
    let board = start();
    for num in [DRIVER_NUM_CONSOLE, DRIVER_NUM_SCREEN, DRIVER_NUM_IPC, 0x00006usize] {
        let first = board.platform.lookup(num);
        let second = board.platform.lookup(num);
        assert_eq!(first, second);
    }
}

#[test]
fn end_to_end_console_ipc_and_unused_number() {
    let board = start();
    let console = board.platform.lookup(DRIVER_NUM_CONSOLE).unwrap();
    assert_eq!(console.kind, DriverKind::Console);
    let ipc = board.platform.lookup(DRIVER_NUM_IPC).unwrap();
    assert_eq!(ipc.kind, DriverKind::Ipc);
    // One above the highest assigned number.
    assert_eq!(board.platform.lookup(DRIVER_NUM_SCREEN + 1), None);
}

#[test]
fn with_driver_hands_the_looked_up_handle_to_the_continuation() {
    let board = start();
    let kind = board
        .platform
        .with_driver(DRIVER_NUM_RNG, |handle: Option<DriverHandle>| handle.map(|h| h.kind));
    assert_eq!(kind, Some(DriverKind::Rng));
    let missing = board
        .platform
        .with_driver(0x00006, |handle: Option<DriverHandle>| handle.is_some());
    assert!(!missing);
}

#[test]
fn distinct_numbers_resolve_to_distinct_slots() {
    let board = start();
    let nums = [
        DRIVER_NUM_ALARM,
        DRIVER_NUM_CONSOLE,
        DRIVER_NUM_LED,
        DRIVER_NUM_BUTTON,
        DRIVER_NUM_GPIO,
        DRIVER_NUM_ADC,
        DRIVER_NUM_IPC,
        DRIVER_NUM_BLE_ADVERTISING,
        DRIVER_NUM_IEEE802154,
        DRIVER_NUM_UDP,
        DRIVER_NUM_RNG,
        DRIVER_NUM_SCREEN,
    ];
    for a in nums {
        for b in nums {
            if a != b {
                assert_ne!(board.platform.lookup(a), board.platform.lookup(b));
            }
        }
    }
}

#[test]
fn kernel_resource_accessors_return_the_fixed_objects() {
    let board = start();
    assert_eq!(board.platform.scheduler().num_procs, NUM_PROCS);
    assert_eq!(board.platform.scheduler_timer().hertz, SYSTICK_HERTZ);
    let _ = board.platform.syscall_filter();
    let _ = board.platform.process_fault();
    let _ = board.platform.watchdog();
    let _ = board.platform.context_switch_callback();
    // The registry dispatches through itself.
    let lookup = board.platform.syscall_driver_lookup();
    assert_eq!(
        lookup.lookup(DRIVER_NUM_LED),
        Some(DriverHandle { kind: DriverKind::Led, driver_num: DRIVER_NUM_LED })
    );
}
