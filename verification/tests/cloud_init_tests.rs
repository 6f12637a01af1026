use kvm_install_vm::cloudinit::CloudInitManager;

#[test]
fn test_create_cloud_init_config() {
    let (user_data, meta_data) = CloudInitManager::create_cloud_init_config(
        "test-vm",
        "example.local",
        "ssh-rsa AAAAB3NzaC1yc2E... test-key",
        "testuser",
        "UTC",
        "wheel",
        "systemctl disable cloud-init",
    )
    .unwrap();

    // Verify user_data contains expected elements
    assert!(user_data.contains("hostname: test-vm"));
    assert!(user_data.contains("fqdn: test-vm.example.local"));
    assert!(user_data.contains("name: testuser"));
    assert!(user_data.contains("groups: ['wheel']"));
    assert!(user_data.contains("ssh-rsa AAAAB3NzaC1yc2E... test-key"));
    assert!(user_data.contains("timezone: UTC"));

    // Verify meta_data contains expected elements
    assert!(meta_data.contains("instance-id: test-vm"));
    assert!(meta_data.contains("local-hostname: test-vm"));
}

#[test]
fn test_meta_data_exact() {
    let (_, meta_data) = CloudInitManager::create_cloud_init_config(
        "demo",
        "example.local",
        "ssh-rsa KEY",
        "centos",
        "UTC",
        "wheel",
        "systemctl disable cloud-init.service",
    )
    .unwrap();
    assert_eq!(meta_data, "instance-id: demo\nlocal-hostname: demo\n");
}

#[test]
fn test_user_data_disable_command_scheduled() {
    let (user_data, _) = CloudInitManager::create_cloud_init_config(
        "demo",
        "example.local",
        "ssh-rsa KEY",
        "centos",
        "UTC",
        "wheel",
        "systemctl disable cloud-init.service",
    )
    .unwrap();
    assert!(user_data.contains("runcmd:\n  - systemctl disable cloud-init.service"));
    assert!(user_data.starts_with("Content-Type: multipart/mixed;"));
    assert!(user_data.ends_with("--==BOUNDARY==--\n"));
}

#[test]
fn test_iso_plan_primary_tool() {
    let plan =
        CloudInitManager::create_cloud_init_iso_plan("/work/demo", "demo", true, true).unwrap();
    assert_eq!(plan.tool, "genisoimage");
    assert_eq!(plan.user_data_path, "/work/demo/user-data");
    assert_eq!(plan.meta_data_path, "/work/demo/meta-data");
    assert_eq!(plan.iso_path, "/work/demo/demo-cidata.iso");
    assert_eq!(
        plan.args,
        vec![
            "-output",
            "/work/demo/demo-cidata.iso",
            "-volid",
            "cidata",
            "-joliet",
            "-rock",
            "/work/demo/user-data",
            "/work/demo/meta-data",
        ]
    );
}

#[test]
fn test_iso_plan_fallback_tool() {
    let plan =
        CloudInitManager::create_cloud_init_iso_plan("/work/demo", "demo", false, true).unwrap();
    assert_eq!(plan.tool, "mkisofs");
    assert_eq!(
        plan.args,
        vec![
            "-o",
            "/work/demo/demo-cidata.iso",
            "-V",
            "cidata",
            "-J",
            "-r",
            "/work/demo/user-data",
            "/work/demo/meta-data",
        ]
    );
}

#[test]
fn test_iso_plan_no_tool_is_fatal() {
    let err =
        CloudInitManager::create_cloud_init_iso_plan("/work/demo", "demo", false, false)
            .unwrap_err();
    assert_eq!(
        err.describe(),
        "external tool failure: neither genisoimage nor mkisofs found; install one of these tools"
    );
}

#[test]
fn test_ssh_key_candidates_order() {
    let candidates = CloudInitManager::ssh_key_candidates("/home/u/.ssh");
    assert_eq!(
        candidates,
        vec![
            "/home/u/.ssh/id_rsa.pub",
            "/home/u/.ssh/id_ed25519.pub",
            "/home/u/.ssh/id_dsa.pub",
        ]
    );
}
