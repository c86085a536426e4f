//! The syscall-number-indexed driver registry and the kernel resource
//! accessors.
//!
//! One `Platform` value owns every constructed driver capsule. It is built
//! exactly once, after boot, and is immutable from then on: the host kernel
//! loop holds it by reference and queries `lookup` (or `with_driver`) for
//! every system call a process issues, and reads the five resource
//! accessors once at startup. Lookup is total: an unknown number resolves
//! to an explicit absent result, never to an error or a crash.

use vstd::prelude::*;
use crate::capability::MemoryAllocationCapability;
use crate::screen::{region_for_spec, Rect, ScreenRegions};

verus! {

/// Syscall driver number of the timer/alarm driver.
pub const DRIVER_NUM_ALARM: usize = 0x00000;

/// Syscall driver number of the console driver.
pub const DRIVER_NUM_CONSOLE: usize = 0x00001;

/// Syscall driver number of the LED driver.
pub const DRIVER_NUM_LED: usize = 0x00002;

/// Syscall driver number of the button driver.
pub const DRIVER_NUM_BUTTON: usize = 0x00003;

/// Syscall driver number of the GPIO driver.
pub const DRIVER_NUM_GPIO: usize = 0x00004;

/// Syscall driver number of the analog input driver.
pub const DRIVER_NUM_ADC: usize = 0x00005;

/// Syscall driver number of the inter-process communication driver.
pub const DRIVER_NUM_IPC: usize = 0x10000;

/// Syscall driver number of the short-range radio advertising driver.
pub const DRIVER_NUM_BLE_ADVERTISING: usize = 0x30000;

/// Syscall driver number of the low-power wireless radio driver.
pub const DRIVER_NUM_IEEE802154: usize = 0x30001;

/// Syscall driver number of the datagram networking driver.
pub const DRIVER_NUM_UDP: usize = 0x30002;

/// Syscall driver number of the random number generator driver.
pub const DRIVER_NUM_RNG: usize = 0x40001;

/// Syscall driver number of the display driver.
pub const DRIVER_NUM_SCREEN: usize = 0x90001;

/// The kind of peripheral or service a registered driver implements.
#[derive(Clone, Copy, Debug, PartialEq, Eq, Structural)]
pub enum DriverKind {
    /// Serial console.
    Console,
    /// General-purpose digital pins.
    Gpio,
    /// Timer/alarm service.
    Alarm,
    /// Light-emitting diodes.
    Led,
    /// User buttons.
    Button,
    /// Analog input.
    Adc,
    /// Random number generator.
    Rng,
    /// Shared display.
    Screen,
    /// Short-range radio advertising.
    BleAdvertising,
    /// Low-power wireless radio.
    Ieee802154,
    /// Datagram networking.
    Udp,
    /// Inter-process communication.
    Ipc,
}

/// One registered driver instance: the pairing of a driver kind with the
/// unique syscall number it answers under.
#[derive(Clone, Copy, Debug, PartialEq, Eq, Structural)]
pub struct DriverHandle {
    /// What the driver implements.
    pub kind: DriverKind,
    /// The syscall number the driver is registered under.
    pub driver_num: usize,
}

/// Constructs the inter-process communication driver. Allocating kernel
/// memory for IPC is a protected operation: construction demands the
/// memory-allocation token.
pub fn new_ipc_driver(_cap: &MemoryAllocationCapability) -> (d: DriverHandle)
    ensures
        d == (DriverHandle { kind: DriverKind::Ipc, driver_num: DRIVER_NUM_IPC }),
{
    DriverHandle { kind: DriverKind::Ipc, driver_num: DRIVER_NUM_IPC }
}

/// The driver kind the fixed table assigns to a syscall number, or nothing
/// for a number outside the table.
pub open spec fn driver_kind_for(driver_num: usize) -> Option<DriverKind> {
    if driver_num == DRIVER_NUM_CONSOLE {
        Some(DriverKind::Console)
    } else if driver_num == DRIVER_NUM_GPIO {
        Some(DriverKind::Gpio)
    } else if driver_num == DRIVER_NUM_ALARM {
        Some(DriverKind::Alarm)
    } else if driver_num == DRIVER_NUM_LED {
        Some(DriverKind::Led)
    } else if driver_num == DRIVER_NUM_BUTTON {
        Some(DriverKind::Button)
    } else if driver_num == DRIVER_NUM_ADC {
        Some(DriverKind::Adc)
    } else if driver_num == DRIVER_NUM_RNG {
        Some(DriverKind::Rng)
    } else if driver_num == DRIVER_NUM_SCREEN {
        Some(DriverKind::Screen)
    } else if driver_num == DRIVER_NUM_BLE_ADVERTISING {
        Some(DriverKind::BleAdvertising)
    } else if driver_num == DRIVER_NUM_IEEE802154 {
        Some(DriverKind::Ieee802154)
    } else if driver_num == DRIVER_NUM_UDP {
        Some(DriverKind::Udp)
    } else if driver_num == DRIVER_NUM_IPC {
        Some(DriverKind::Ipc)
    } else {
        None
    }
}

/// Whether a syscall number is in the fixed table.
pub open spec fn is_valid_driver_num(driver_num: usize) -> bool {
    driver_kind_for(driver_num) is Some
}

/// The display driver: a handle in the registry, together with the fixed
/// region configuration it consults whenever a process issues a screen
/// operation.
pub struct ScreenDriver {
    /// The handle the registry hands out.
    pub handle: DriverHandle,
    /// The fixed (identity, rectangle) configuration.
    pub regions: ScreenRegions,
}

impl ScreenDriver {
    /// Well formed when the handle is a display handle and every configured
    /// identity is representable.
    pub open spec fn wf(self) -> bool {
        &&& self.handle.kind == DriverKind::Screen
        &&& self.handle.driver_num == DRIVER_NUM_SCREEN
        &&& self.regions.wf()
    }

    /// The rectangle granted to an application identity, or nothing when
    /// the identity has no display access.
    pub fn region_for(&self, id: u32) -> (r: Option<Rect>)
        ensures
            r == region_for_spec(self.regions@, id),
    {
        self.regions.region_for(id)
    }
}

/// The interactive process console. It is not in the syscall table: it
/// serves the human operator over the diagnostic transport, and is started
/// once at the end of boot.
#[derive(Clone, Copy, Debug, PartialEq, Eq, Structural)]
pub struct ProcessConsole {
    /// Whether the console has been started.
    pub started: bool,
}

impl ProcessConsole {
    /// Creates the console, not yet started.
    pub fn new() -> (c: Self)
        ensures
            !c.started,
    {
        ProcessConsole { started: false }
    }

    /// Starts the console. Done once, at the end of boot.
    pub fn start(&mut self)
        requires
            !old(self).started,
        ensures
            final(self).started,
    {
        self.started = true;
    }
}

/// The round-robin scheduling policy object.
#[derive(Clone, Copy, Debug, PartialEq, Eq, Structural)]
pub struct RoundRobinSched {
    /// How many process slots the scheduler cycles over.
    pub num_procs: usize,
}

/// The scheduler's hardware timer, calibrated against the core clock.
#[derive(Clone, Copy, Debug, PartialEq, Eq, Structural)]
pub struct SysTick {
    /// The calibration frequency in hertz.
    pub hertz: u32,
}

/// The explicit no-op syscall filter policy: every syscall is admitted.
#[derive(Clone, Copy, Debug, PartialEq, Eq, Structural)]
pub struct NoopSyscallFilter {}

/// The explicit no-op process-fault hook. The board's response to a fault
/// — stop the process and print a notice — is carried by the process
/// loader's fault policy, not by this hook.
#[derive(Clone, Copy, Debug, PartialEq, Eq, Structural)]
pub struct NoopProcessFault {}

/// The explicit no-op watchdog policy.
#[derive(Clone, Copy, Debug, PartialEq, Eq, Structural)]
pub struct NoopWatchdog {}

/// The explicit no-op context-switch observer.
#[derive(Clone, Copy, Debug, PartialEq, Eq, Structural)]
pub struct NoopContextSwitchCallback {}

/// How the kernel responds when a process faults.
#[derive(Clone, Copy, Debug, PartialEq, Eq, Structural)]
pub enum FaultPolicy {
    /// Stop the faulting process and print a notice; the rest of the system
    /// keeps running, and the faulted process stays inert until removed.
    StopWithDebug,
}

/// The fault response this board hands to the process loader: stop the app
/// and print a notice, but keep the system running, so that users can debug
/// their apps without the whole board halting.
pub const FAULT_RESPONSE: FaultPolicy = FaultPolicy::StopWithDebug;

/// Supported drivers of the platform: the registry that owns every
/// constructed capsule, plus the fixed kernel resources. Built exactly
/// once; no slot is inserted or removed at runtime.
pub struct Platform {
    /// Short-range radio advertising driver.
    pub ble_radio: DriverHandle,
    /// Low-power wireless radio driver.
    pub ieee802154_radio: DriverHandle,
    /// Serial console driver.
    pub console: DriverHandle,
    /// Interactive process console (not in the syscall table).
    pub pconsole: ProcessConsole,
    /// General-purpose digital pin driver.
    pub gpio: DriverHandle,
    /// LED driver.
    pub led: DriverHandle,
    /// Analog input driver.
    pub adc: DriverHandle,
    /// Random number generator driver.
    pub rng: DriverHandle,
    /// Inter-process communication driver.
    pub ipc: DriverHandle,
    /// Timer/alarm driver.
    pub alarm: DriverHandle,
    /// Button driver.
    pub button: DriverHandle,
    /// Shared display driver with its region configuration.
    pub screen: ScreenDriver,
    /// Datagram networking driver.
    pub udp_driver: DriverHandle,
    /// The scheduling policy object.
    pub scheduler: RoundRobinSched,
    /// The scheduler's hardware timer.
    pub systick: SysTick,
    /// The no-op syscall filter.
    pub syscall_filter_policy: NoopSyscallFilter,
    /// The no-op process-fault hook.
    pub process_fault_policy: NoopProcessFault,
    /// The no-op watchdog.
    pub watchdog_policy: NoopWatchdog,
    /// The no-op context-switch observer.
    pub context_switch_policy: NoopContextSwitchCallback,
}

impl Platform {
    /// Every slot holds a driver of the kind its syscall number promises,
    /// registered under that number, and the display configuration is well
    /// formed.
    pub open spec fn wf(self) -> bool {
        &&& self.console == (DriverHandle {
            kind: DriverKind::Console,
            driver_num: DRIVER_NUM_CONSOLE,
        })
        &&& self.gpio == (DriverHandle { kind: DriverKind::Gpio, driver_num: DRIVER_NUM_GPIO })
        &&& self.alarm == (DriverHandle { kind: DriverKind::Alarm, driver_num: DRIVER_NUM_ALARM })
        &&& self.led == (DriverHandle { kind: DriverKind::Led, driver_num: DRIVER_NUM_LED })
        &&& self.button == (DriverHandle {
            kind: DriverKind::Button,
            driver_num: DRIVER_NUM_BUTTON,
        })
        &&& self.adc == (DriverHandle { kind: DriverKind::Adc, driver_num: DRIVER_NUM_ADC })
        &&& self.rng == (DriverHandle { kind: DriverKind::Rng, driver_num: DRIVER_NUM_RNG })
        &&& self.screen.wf()
        &&& self.ble_radio == (DriverHandle {
            kind: DriverKind::BleAdvertising,
            driver_num: DRIVER_NUM_BLE_ADVERTISING,
        })
        &&& self.ieee802154_radio == (DriverHandle {
            kind: DriverKind::Ieee802154,
            driver_num: DRIVER_NUM_IEEE802154,
        })
        &&& self.udp_driver == (DriverHandle { kind: DriverKind::Udp, driver_num: DRIVER_NUM_UDP })
        &&& self.ipc == (DriverHandle { kind: DriverKind::Ipc, driver_num: DRIVER_NUM_IPC })
    }

    /// The handle the registry returns for a syscall number: the slot the
    /// fixed table assigns to the number, or nothing outside the table.
    pub open spec fn spec_lookup(self, driver_num: usize) -> Option<DriverHandle> {
        if driver_num == DRIVER_NUM_CONSOLE {
            Some(self.console)
        } else if driver_num == DRIVER_NUM_GPIO {
            Some(self.gpio)
        } else if driver_num == DRIVER_NUM_ALARM {
            Some(self.alarm)
        } else if driver_num == DRIVER_NUM_LED {
            Some(self.led)
        } else if driver_num == DRIVER_NUM_BUTTON {
            Some(self.button)
        } else if driver_num == DRIVER_NUM_ADC {
            Some(self.adc)
        } else if driver_num == DRIVER_NUM_RNG {
            Some(self.rng)
        } else if driver_num == DRIVER_NUM_SCREEN {
            Some(self.screen.handle)
        } else if driver_num == DRIVER_NUM_BLE_ADVERTISING {
            Some(self.ble_radio)
        } else if driver_num == DRIVER_NUM_IEEE802154 {
            Some(self.ieee802154_radio)
        } else if driver_num == DRIVER_NUM_UDP {
            Some(self.udp_driver)
        } else if driver_num == DRIVER_NUM_IPC {
            Some(self.ipc)
        } else {
            None
        }
    }

    /// Pure dispatch from a syscall number to the driver registered under
    /// it. Total: never fails, never blocks; an unrecognized number is an
    /// explicit absent result; and the same number yields the same handle
    /// across the whole process lifetime.
    pub fn lookup(&self, driver_num: usize) -> (r: Option<DriverHandle>)
        ensures
            r == self.spec_lookup(driver_num),
    {
        if driver_num == DRIVER_NUM_CONSOLE {
            Some(self.console)
        } else if driver_num == DRIVER_NUM_GPIO {
            Some(self.gpio)
        } else if driver_num == DRIVER_NUM_ALARM {
            Some(self.alarm)
        } else if driver_num == DRIVER_NUM_LED {
            Some(self.led)
        } else if driver_num == DRIVER_NUM_BUTTON {
            Some(self.button)
        } else if driver_num == DRIVER_NUM_ADC {
            Some(self.adc)
        } else if driver_num == DRIVER_NUM_RNG {
            Some(self.rng)
        } else if driver_num == DRIVER_NUM_SCREEN {
            Some(self.screen.handle)
        } else if driver_num == DRIVER_NUM_BLE_ADVERTISING {
            Some(self.ble_radio)
        } else if driver_num == DRIVER_NUM_IEEE802154 {
            Some(self.ieee802154_radio)
        } else if driver_num == DRIVER_NUM_UDP {
            Some(self.udp_driver)
        } else if driver_num == DRIVER_NUM_IPC {
            Some(self.ipc)
        } else {
            None
        }
    }

    /// Dispatch in the shape the host kernel loop uses: the driver
    /// registered under `driver_num` — or the absent result — is handed to
    /// the continuation `f`, and `f`'s answer is returned.
    pub fn with_driver<F, R>(&self, driver_num: usize, f: F) -> (r: R) where
        F: FnOnce(Option<DriverHandle>) -> R,

        requires
            call_requires(f, (self.spec_lookup(driver_num),)),
        ensures
            call_ensures(f, (self.spec_lookup(driver_num),), r),
    {
        let handle = self.lookup(driver_num);
        f(handle)
    }

    /// The registry the kernel dispatches syscalls through: this value.
    pub fn syscall_driver_lookup(&self) -> (r: &Self)
        ensures
            *r == *self,
    {
        self
    }

    /// The syscall filter policy, fixed at construction.
    pub fn syscall_filter(&self) -> (r: &NoopSyscallFilter)
        ensures
            *r == self.syscall_filter_policy,
    {
        &self.syscall_filter_policy
    }

    /// The process-fault hook, fixed at construction.
    pub fn process_fault(&self) -> (r: &NoopProcessFault)
        ensures
            *r == self.process_fault_policy,
    {
        &self.process_fault_policy
    }

    /// The scheduling policy object, fixed at construction.
    pub fn scheduler(&self) -> (r: &RoundRobinSched)
        ensures
            *r == self.scheduler,
    {
        &self.scheduler
    }

    /// The scheduler's hardware timer, fixed at construction.
    pub fn scheduler_timer(&self) -> (r: &SysTick)
        ensures
            *r == self.systick,
    {
        &self.systick
    }

    /// The watchdog policy, fixed at construction.
    pub fn watchdog(&self) -> (r: &NoopWatchdog)
        ensures
            *r == self.watchdog_policy,
    {
        &self.watchdog_policy
    }

    /// The context-switch observer, fixed at construction.
    pub fn context_switch_callback(&self) -> (r: &NoopContextSwitchCallback)
        ensures
            *r == self.context_switch_policy,
    {
        &self.context_switch_policy
    }
}

/// On a well-formed platform, lookup is present exactly on the numbers of
/// the fixed table, and the handle found under a number is a driver of the
/// kind the table assigns to that number, registered under that number.
pub proof fn lemma_lookup_follows_table(p: Platform, driver_num: usize)
    requires
        p.wf(),
    ensures
        p.spec_lookup(driver_num) is Some <==> is_valid_driver_num(driver_num),
        match p.spec_lookup(driver_num) {
            Some(handle) => {
                &&& driver_kind_for(driver_num) == Some(handle.kind)
                &&& handle.driver_num == driver_num
            },
            None => driver_kind_for(driver_num) is None,
        },
{
}

/// Identifiers are unique within the registry: on a well-formed platform,
/// two distinct numbers of the table never resolve to the same slot, since
/// every slot is registered under exactly its own number.
pub proof fn lemma_registry_identifiers_unique(p: Platform, n1: usize, n2: usize)
    requires
        p.wf(),
        n1 != n2,
        p.spec_lookup(n1) is Some,
        p.spec_lookup(n2) is Some,
    ensures
        p.spec_lookup(n1) != p.spec_lookup(n2),
{
}

/// Looking the same number up twice yields the same handle both times: the
/// registry is immutable after construction, and the handle returned is a
/// function of the registry and the number alone.
pub proof fn lemma_lookup_stable(
    p: Platform,
    driver_num: usize,
    r1: Option<DriverHandle>,
    r2: Option<DriverHandle>,
)
    requires
        r1 == p.spec_lookup(driver_num),
        r2 == p.spec_lookup(driver_num),
    ensures
        r1 == r2,
{
}

} // verus!
