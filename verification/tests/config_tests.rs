use kvm_install_vm::config::Config;
use kvm_install_vm::config::DistroMap;
use kvm_install_vm::vm::DistroInfo;

#[test]
fn test_config_defaults() {
    let config = Config::default();

    // Check that default distributions exist
    assert!(config.distros.contains_key("centos8"));
    assert!(config.distros.contains_key("ubuntu2004"));

    // Check default settings
    assert_eq!(config.defaults.memory_mb, 1024);
    assert_eq!(config.defaults.vcpus, 1);
    assert_eq!(config.defaults.disk_size_gb, 10);
}

#[test]
fn test_get_distro() {
    let config = Config::default();

    // Test existing distro
    let centos = config.get_distro("centos8").unwrap();
    assert_eq!(centos.os_variant, "centos8");

    // Test non-existent distro
    let result = config.get_distro("nonexistent-distro");
    assert!(result.is_err());
}

#[test]
fn test_get_distro_error_message() {
    let config = Config::default();
    let err = config.get_distro("nonexistent-distro").unwrap_err();
    assert_eq!(
        err.describe(),
        "not found: distribution 'nonexistent-distro' not found in configuration"
    );
}

#[test]
fn test_distro_map_insert_replaces() {
    let mut map = DistroMap::new();
    assert_eq!(map.len(), 0);
    assert!(!map.contains_key("alpha"));

    map.insert(
        "alpha".to_string(),
        DistroInfo {
            qcow_filename: "one.qcow2".to_string(),
            os_variant: "one".to_string(),
            image_url: "https://example.com/one".to_string(),
            login_user: "one".to_string(),
            sudo_group: "wheel".to_string(),
            cloud_init_disable: "systemctl disable cloud-init".to_string(),
        },
    );
    assert_eq!(map.len(), 1);
    assert!(map.contains_key("alpha"));
    assert_eq!(map.get("alpha").unwrap().os_variant, "one");

    map.insert(
        "alpha".to_string(),
        DistroInfo {
            qcow_filename: "two.qcow2".to_string(),
            os_variant: "two".to_string(),
            image_url: "https://example.com/two".to_string(),
            login_user: "two".to_string(),
            sudo_group: "wheel".to_string(),
            cloud_init_disable: "systemctl disable cloud-init".to_string(),
        },
    );
    assert_eq!(map.len(), 1);
    assert_eq!(map.get("alpha").unwrap().os_variant, "two");
}

#[test]
fn test_default_config_dirs_end_under_home() {
    let config = Config::default();
    assert!(config.defaults.image_dir.ends_with("/virt/images"));
    assert!(config.defaults.vm_dir.ends_with("/virt/vms"));
    assert_eq!(config.defaults.dns_domain, "example.local");
    assert_eq!(config.defaults.timezone, "UTC");
}

#[test]
fn test_default_config_fedora_profile() {
    let config = Config::default();
    let fedora = config.get_distro("fedora35").unwrap();
    assert_eq!(fedora.qcow_filename, "Fedora-Cloud-Base-35-1.2.x86_64.qcow2");
    assert_eq!(fedora.login_user, "fedora");
    assert_eq!(fedora.sudo_group, "wheel");
}
