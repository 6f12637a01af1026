use kvm_install_vm::vm::{DistroInfo, ImageManager};

// Helper function to create a test distro info
fn create_test_distro() -> DistroInfo {
    DistroInfo {
        qcow_filename: "test-image.qcow2".to_string(),
        os_variant: "test-os".to_string(),
        image_url: "https://example.com/images".to_string(),
        login_user: "testuser".to_string(),
        sudo_group: "wheel".to_string(),
        cloud_init_disable: "systemctl disable cloud-init".to_string(),
    }
}

#[test]
fn test_image_manager_initialization() {
    let image_manager = ImageManager::new("/cache/images");

    // Test that the image directory is set correctly
    assert_eq!(
        image_manager.get_image_path(&create_test_distro()),
        "/cache/images/test-image.qcow2"
    );
}

#[test]
fn test_part_path_marks_in_progress() {
    let image_manager = ImageManager::new("/cache/images");
    assert_eq!(
        image_manager.get_part_path(&create_test_distro()),
        "/cache/images/test-image.part"
    );
    assert_eq!(
        kvm_install_vm::image::part_path_of("/cache/no-extension"),
        "/cache/no-extension.part"
    );
}

#[test]
fn test_image_absent_from_empty_cache() {
    let image_manager = ImageManager::new("/nonexistent-image-cache-for-tests");
    let distro = create_test_distro();
    assert!(!image_manager.image_exists(&distro));
    assert!(image_manager.part_file_len(&distro).is_none());
}

#[test]
fn test_download_url_strips_trailing_separators() {
    let mut distro = create_test_distro();
    distro.image_url = "https://example.com/images///".to_string();
    assert_eq!(
        kvm_install_vm::image::download_url(&distro),
        "https://example.com/images/test-image.qcow2"
    );
    let distro2 = create_test_distro();
    assert_eq!(
        kvm_install_vm::image::download_url(&distro2),
        "https://example.com/images/test-image.qcow2"
    );
}
