use neutron_kernel::kernel::KernelManager;
use neutron_kernel::process::Process;
use neutron_kernel::driver::driver_manager;

#[test]
fn test_kern_basics() {
    let _kern = KernelManager::new();
}

#[test]
fn test_process() {
    let process = Process::default();
    println!("Process succesfully created: {process:?}!");
}

#[test]
fn process_new_keeps_fields() {
    let p = Process::new(
        7,
        String::from("init"),
        64,
        16,
        neutron_kernel::process::ProcessStatus::UP,
        -2,
    );
    assert_eq!(p.id, 7);
    assert_eq!(p.name, "init");
    assert_eq!(p.space_allocated, 64);
    assert_eq!(p.space_used, 16);
    assert!(matches!(p.status, neutron_kernel::process::ProcessStatus::UP));
    assert_eq!(p.priority, -2);
}

#[test]
fn process_executes_elf() {
    let p = Process::default();
    let bin = neutron_kernel::process::ElfBinary(vec![0x7f, b'E', b'L', b'F']);
    let status = p.execute_elf64(&bin);
    assert!(matches!(status, neutron_kernel::process::ProcessExitStatus::SUCCESS));
    p.create_thread();
}

#[test]
fn board_driver_table() {
    let mgr = driver_manager();
    assert_eq!(mgr.device_drivers.len(), 3);
    assert_eq!(mgr.device_drivers[0].name, "BCM GPIO");
    assert_eq!(mgr.device_drivers[0].mmio_descriptor.start.value, 0xfe20_0000);
    assert_eq!(mgr.device_drivers[1].name, "BCM PL011 UART");
    assert_eq!(mgr.device_drivers[2].name, "GICv2 interrupt controller");
}
