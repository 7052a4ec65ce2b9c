//! Board driver support: the table of devices the board brings up —
//! GPIO, UART and interrupt controller — each described by the MMIO
//! window its registers live in. Driver initialization maps each window
//! through `kernel_map_mmio`.

use vstd::prelude::*;
use crate::address::{Address, MMIODescriptor};

verus! {

/// One device the board knows: its name and its register window.
#[derive(Clone, Copy, Debug)]
pub struct DeviceDriverDescriptor {
    pub name: &'static str,
    pub mmio_descriptor: MMIODescriptor,
}

/// The board's device table.
#[derive(Debug)]
pub struct DriverManager {
    pub device_drivers: Vec<DeviceDriverDescriptor>,
}

/// The board's driver manager: GPIO, PL011 UART and the interrupt
/// controller, with the register windows the board wires them to.
pub fn driver_manager() -> (r: DriverManager)
    ensures
        r.device_drivers@.len() == 3,
        forall|i: int|
            0 <= i < 3 ==> (#[trigger] r.device_drivers@[i]).mmio_descriptor.wf(),
        r.device_drivers@[0].name@ == "BCM GPIO"@,
        r.device_drivers@[0].mmio_descriptor.start.value == 0xfe20_0000,
        r.device_drivers@[0].mmio_descriptor.size == 0xb4,
        r.device_drivers@[1].name@ == "BCM PL011 UART"@,
        r.device_drivers@[1].mmio_descriptor.start.value == 0xfe20_1000,
        r.device_drivers@[1].mmio_descriptor.size == 0x48,
        r.device_drivers@[2].name@ == "GICv2 interrupt controller"@,
        r.device_drivers@[2].mmio_descriptor.start.value == 0xff84_1000,
        r.device_drivers@[2].mmio_descriptor.size == 0x1000,
{
    let mut device_drivers: Vec<DeviceDriverDescriptor> = Vec::new();
    device_drivers.push(
        DeviceDriverDescriptor {
            name: "BCM GPIO",
            mmio_descriptor: MMIODescriptor::new(Address::new(0xfe20_0000), 0xb4),
        },
    );
    device_drivers.push(
        DeviceDriverDescriptor {
            name: "BCM PL011 UART",
            mmio_descriptor: MMIODescriptor::new(Address::new(0xfe20_1000), 0x48),
        },
    );
    device_drivers.push(
        DeviceDriverDescriptor {
            name: "GICv2 interrupt controller",
            mmio_descriptor: MMIODescriptor::new(Address::new(0xff84_1000), 0x1000),
        },
    );
    DriverManager { device_drivers }
}

} // verus!
