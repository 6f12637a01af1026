use kvm_install_vm::domain::extract_disk_paths_from_xml;
use kvm_install_vm::vm::VirtualMachine;

#[test]
fn test_create_new_vm_instance() {
    let vm = VirtualMachine::new(
        "test-vm".to_string(),
        2,
        1024,
        10,
        "/tmp/test-vm.qcow2".to_string(),
    );

    assert_eq!(vm.name, "test-vm");
    assert_eq!(vm.vcpus, 2);
    assert_eq!(vm.memory_mb, 1024);
    assert_eq!(vm.disk_size_gb, 10);
    assert_eq!(vm.disk_path, "/tmp/test-vm.qcow2");
}

#[test]
fn test_extract_disk_paths() {
    let xml = r#"
        <domain type='kvm'>
          <name>test-vm</name>
          <devices>
            <disk type='file' device='disk'>
              <driver name='qemu' type='qcow2'/>
              <source file='/path/to/disk1.qcow2'/>
              <target dev='vda' bus='virtio'/>
            </disk>
            <disk type='file' device='disk'>
              <driver name='qemu' type='qcow2'/>
              <source file="/path/to/disk2.qcow2"/>
              <target dev='vdb' bus='virtio'/>
            </disk>
          </devices>
        </domain>
        "#;

    let disk_paths = extract_disk_paths_from_xml(xml);

    assert_eq!(disk_paths.len(), 2);
    assert!(disk_paths.contains(&"/path/to/disk1.qcow2".to_string()));
    assert!(disk_paths.contains(&"/path/to/disk2.qcow2".to_string()));
}

#[test]
fn test_extract_disk_paths_unterminated_quote() {
    let xml = "<source file='/a.qcow2'/>\n<source file=\"/b.qcow2";
    let disk_paths = extract_disk_paths_from_xml(xml);
    assert_eq!(disk_paths, vec!["/a.qcow2".to_string()]);
}

#[test]
fn test_extract_disk_paths_none() {
    let xml = "<domain><name>x</name></domain>";
    let disk_paths = extract_disk_paths_from_xml(xml);
    assert!(disk_paths.is_empty());
}

#[test]
fn test_generate_domain_xml_binds_request() {
    let vm = VirtualMachine::new(
        "demo".to_string(),
        2,
        2048,
        20,
        "/vms/demo/demo.qcow2".to_string(),
    );
    let xml = vm.generate_domain_xml(None, false);
    assert!(xml.contains("<name>demo</name>"));
    assert!(xml.contains("<memory unit='MiB'>2048</memory>"));
    assert!(xml.contains("<vcpu>2</vcpu>"));
    assert!(xml.contains("<source file='/vms/demo/demo.qcow2'/>"));
    assert!(xml.contains("<interface type='user'>"));
    assert!(!xml.contains("<graphics"));
    assert!(!xml.contains("cdrom"));
}

#[test]
fn test_generate_domain_xml_seed_and_graphics() {
    let vm = VirtualMachine::new(
        "demo".to_string(),
        1,
        1024,
        10,
        "/vms/demo/demo.qcow2".to_string(),
    );
    let xml = vm.generate_domain_xml(Some("/vms/demo/demo-cidata.iso"), true);
    assert!(xml.contains("<source file='/vms/demo/demo-cidata.iso'/>"));
    assert!(xml.contains("device='cdrom'"));
    assert!(xml.contains("<graphics type='vnc' port='-1'/>"));

    // The description holds exactly the two disk sources, extractable
    // in document order.
    let paths = extract_disk_paths_from_xml(&xml);
    assert_eq!(
        paths,
        vec![
            "/vms/demo/demo.qcow2".to_string(),
            "/vms/demo/demo-cidata.iso".to_string(),
        ]
    );
}
