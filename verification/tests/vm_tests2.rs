use kvm_install_vm::vm::VirtualMachine;

// Test VM creation and initialization without actually interacting
// with the hypervisor.
#[test]
fn test_vm_initialization() {
    let vm = VirtualMachine::new(
        "test-vm".to_string(),
        2,
        1024,
        10,
        "/tmp/test-vm.qcow2".to_string(),
    );

    assert_eq!(vm.name, "test-vm");
    assert_eq!(vm.vcpus, 2);
    assert_eq!(vm.memory_mb, 1024);
    assert_eq!(vm.disk_size_gb, 10);
    assert_eq!(vm.disk_path, "/tmp/test-vm.qcow2");
}
