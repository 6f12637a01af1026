use kvm_install_vm::cloudinit::CloudInitManager;
use kvm_install_vm::disk::DiskComposer;
use kvm_install_vm::image::{AcquireAction, AcquirePhase, Acquisition, ResumeStep};
use kvm_install_vm::vm::{
    CreateAction, CreateFlow, CreatePhase, DestroyAction, DestroyFlow, DestroyPhase,
    VirtualMachine,
};
use kvm_install_vm::VmError;

// A first acquisition transfers; a second one over the published image
// is a cache hit and touches the network not at all.
#[test]
fn test_second_acquisition_is_cache_hit() {
    // First run: nothing cached, no partial file.
    let (mut m, action) = Acquisition::start(false, None);
    assert_eq!(action, AcquireAction::RequestFull);
    assert_eq!(m.requests, 1);
    m.on_full_response(200, Some(500)).unwrap();
    m.on_chunk(200);
    m.on_chunk(300);
    m.on_stream_end();
    assert_eq!(m.phase, AcquirePhase::Published);
    assert_eq!(m.written, 500);

    // Second run: the rename published the image under the canonical
    // name, so the cache probe finds it.
    let (m2, action2) = Acquisition::start(true, None);
    assert_eq!(action2, AcquireAction::UseCached);
    assert_eq!(m2.requests, 0);
    assert_eq!(m2.phase, AcquirePhase::CacheHit);
}

// Resuming after an interruption at 100 bytes of 500 transfers only
// the remaining 400, and the final size equals the reported total.
#[test]
fn test_resume_transfers_only_remainder() {
    let (mut m, action) = Acquisition::start(false, Some(100));
    assert_eq!(action, AcquireAction::RequestRange(100));
    let step = m.on_range_response(206, Some(400));
    assert_eq!(step, ResumeStep::AppendBody);
    assert_eq!(m.expected_total, Some(500));
    assert_eq!(m.written, 100);
    m.on_chunk(400);
    m.on_stream_end();
    assert_eq!(m.phase, AcquirePhase::Published);
    assert_eq!(m.written, 500);
    assert_eq!(m.expected_total, Some(500));
    assert_eq!(m.requests, 1);
}

// A resume the endpoint refuses falls back silently to a fresh, whole
// download: the stale bytes are discarded, nothing is concatenated.
#[test]
fn test_resume_unsupported_restarts_fresh() {
    let (mut m, action) = Acquisition::start(false, Some(100));
    assert_eq!(action, AcquireAction::RequestRange(100));
    let step = m.on_range_response(200, Some(500));
    assert_eq!(step, ResumeStep::StartOver);
    assert_eq!(m.written, 0);
    assert_eq!(m.phase, AcquirePhase::AwaitingFull);
    assert_eq!(m.requests, 2);
    m.on_full_response(200, Some(500)).unwrap();
    m.on_chunk(500);
    m.on_stream_end();
    assert_eq!(m.written, 500);
    assert_eq!(m.phase, AcquirePhase::Published);
}

// A failed transfer keeps the in-progress state for a later resume.
#[test]
fn test_transfer_error_keeps_partial_state() {
    let (mut m, _) = Acquisition::start(false, None);
    m.on_full_response(200, Some(500)).unwrap();
    m.on_chunk(123);
    m.on_transfer_error();
    assert_eq!(m.phase, AcquirePhase::Failed);
    assert_eq!(m.written, 123);
}

// A malformed answer to a full request is a transfer failure.
#[test]
fn test_full_download_bad_status_is_transfer_failure() {
    let (mut m, _) = Acquisition::start(false, None);
    let err = m.on_full_response(503, None).unwrap_err();
    assert!(matches!(err, VmError::TransferFailure(_)));
    assert_eq!(
        err.describe(),
        "transfer failure: unexpected status for full download"
    );
}

// compose() refuses an existing target disk before any external call.
#[test]
fn test_compose_refuses_existing_disk() {
    let r = DiskComposer::compose_plan(
        "/cache/base.qcow2",
        true,
        "/vms",
        "demo",
        true,
        20,
        10,
    );
    let err = r.unwrap_err();
    assert!(matches!(err, VmError::PreconditionViolated(_)));
    assert_eq!(
        err.describe(),
        "precondition violated: disk already exists: /vms/demo/demo.qcow2"
    );
}

// A missing base image is fatal before any external call.
#[test]
fn test_compose_refuses_missing_base() {
    let r = DiskComposer::compose_plan(
        "/cache/base.qcow2",
        false,
        "/vms",
        "demo",
        false,
        20,
        10,
    );
    let err = r.unwrap_err();
    assert!(matches!(err, VmError::NotFound(_)));
}

// The nominal composition: an overlay backed by the base image, grown
// to the requested 20 GiB.
#[test]
fn test_compose_plan_overlay_and_growth() {
    let plan = DiskComposer::compose_plan(
        "/cache/centos8-base.qcow2",
        true,
        "/vms",
        "demo",
        false,
        20,
        10,
    )
    .unwrap();
    assert_eq!(plan.vm_dir, "/vms/demo");
    assert_eq!(plan.disk_path, "/vms/demo/demo.qcow2");
    assert_eq!(
        plan.create_args,
        vec![
            "create",
            "-f",
            "qcow2",
            "-F",
            "qcow2",
            "-b",
            "/cache/centos8-base.qcow2",
            "/vms/demo/demo.qcow2",
        ]
    );
    assert_eq!(
        plan.resize_args.unwrap(),
        vec!["resize", "/vms/demo/demo.qcow2", "20G"]
    );
}

// A size at or below the base size never shrinks: no resize step.
#[test]
fn test_compose_plan_never_shrinks() {
    let plan = DiskComposer::compose_plan(
        "/cache/base.qcow2",
        true,
        "/vms",
        "demo",
        false,
        10,
        10,
    )
    .unwrap();
    assert!(plan.resize_args.is_none());
}

// destroy() of a nonexistent domain is a reported NotFound error, and
// no action ever reaches the hypervisor.
#[test]
fn test_destroy_nonexistent_is_not_found() {
    let r = DestroyFlow::begin("ghost", false, false, "", true);
    let err = r.unwrap_err();
    assert!(matches!(err, VmError::NotFound(_)));
    assert_eq!(err.describe(), "not found: domain not found: ghost");
}

// destroy() with two disk sources extracts both before the undefine;
// a failed deletion of the first still attempts the second, and the
// domain stays undefined.
#[test]
fn test_destroy_two_disks_best_effort() {
    let xml = "<domain><devices>\
               <disk><source file='/vms/demo/demo.qcow2'/></disk>\
               <disk><source file='/vms/demo/demo-cidata.iso'/></disk>\
               </devices></domain>";
    let (mut flow, action) = DestroyFlow::begin("demo", true, false, xml, true).unwrap();
    // Inactive: the stop step is skipped and the undefine comes first.
    assert!(matches!(action, DestroyAction::Undefine));
    assert_eq!(
        flow.disk_paths,
        vec![
            "/vms/demo/demo.qcow2".to_string(),
            "/vms/demo/demo-cidata.iso".to_string(),
        ]
    );

    // The undefine succeeds; removal of the first path is requested.
    let action = flow.on_undefine_result(true).unwrap();
    match action {
        DestroyAction::RemoveDisk(p) => assert_eq!(p, "/vms/demo/demo.qcow2"),
        other => panic!("expected a removal, got {:?}", other),
    }

    // The first deletion fails; the second is still attempted.
    let action = flow.on_disk_removal_result(false);
    match action {
        DestroyAction::RemoveDisk(p) => assert_eq!(p, "/vms/demo/demo-cidata.iso"),
        other => panic!("expected a removal, got {:?}", other),
    }
    let action = flow.on_disk_removal_result(true);
    assert!(matches!(action, DestroyAction::Done));
    assert_eq!(flow.phase, DestroyPhase::Done);
    assert_eq!(flow.failed_removals, vec!["/vms/demo/demo.qcow2".to_string()]);
}

// An active domain is stopped best-effort first; a stop that fails
// does not keep the undefine from being issued.
#[test]
fn test_destroy_active_stop_is_best_effort() {
    let xml = "<source file='/vms/demo/demo.qcow2'/>";
    let (mut flow, action) = DestroyFlow::begin("demo", true, true, xml, false).unwrap();
    assert!(matches!(action, DestroyAction::Stop));
    let action = flow.on_stop_result(false);
    assert!(matches!(action, DestroyAction::Undefine));
    // Deletion was not requested: the paths are reported, not removed.
    let action = flow.on_undefine_result(true).unwrap();
    assert!(matches!(action, DestroyAction::Done));
    assert_eq!(flow.disk_paths, vec!["/vms/demo/demo.qcow2".to_string()]);
    assert!(flow.failed_removals.is_empty());
}

// A failed undefine is the one teardown error that is fatal.
#[test]
fn test_destroy_undefine_failure_is_fatal() {
    let (mut flow, _) = DestroyFlow::begin("demo", true, false, "", true).unwrap();
    let err = flow.on_undefine_result(false).unwrap_err();
    assert!(matches!(err, VmError::ExternalToolFailure(_)));
}

// The demo scenario: a cached base image, no prior disk, a 20 GiB
// request. The overlay is backed by the base image, the seed document
// binds the hostname and FQDN, and the controller reaches Active.
#[test]
fn test_demo_request_reaches_active() {
    // Compose: 20 GiB overlay over the cached centos8 base image.
    let plan = DiskComposer::compose_plan(
        "/cache/CentOS-8-GenericCloud-8.1.1911-20200113.3.x86_64.qcow2",
        true,
        "/vms",
        "demo",
        false,
        20,
        10,
    )
    .unwrap();
    assert_eq!(plan.disk_path, "/vms/demo/demo.qcow2");
    assert!(plan
        .create_args
        .contains(&"/cache/CentOS-8-GenericCloud-8.1.1911-20200113.3.x86_64.qcow2".to_string()));
    assert_eq!(
        plan.resize_args.unwrap(),
        vec!["resize", "/vms/demo/demo.qcow2", "20G"]
    );

    // Seed: the user-data binds hostname and FQDN.
    let (user_data, _) = CloudInitManager::create_cloud_init_config(
        "demo",
        "example.local",
        "ssh-rsa KEY",
        "centos",
        "UTC",
        "wheel",
        "systemctl disable cloud-init.service",
    )
    .unwrap();
    assert!(user_data.contains("hostname: demo"));
    assert!(user_data.contains("fqdn: demo.example.local"));

    // Controller: disk creation, definition, start — Active.
    let vm = VirtualMachine::new(
        "demo".to_string(),
        2,
        2048,
        20,
        plan.disk_path.clone(),
    );
    let (mut flow, action) =
        CreateFlow::begin(&vm, true, false, Some("/vms/demo/demo-cidata.iso"), false).unwrap();
    assert!(matches!(action, CreateAction::CreateDisk(_)));
    let action = flow.on_disk_created(true, "").unwrap();
    assert!(matches!(action, CreateAction::Define(_)));
    let action = flow.on_define_result(true).unwrap();
    assert!(matches!(action, CreateAction::Start));
    let action = flow.on_start_result(true).unwrap();
    assert!(matches!(action, CreateAction::Done));
    assert_eq!(flow.phase, CreatePhase::Active);
}

// Repeating a request whose disk and seed already exist must not
// re-create the disk: creation proceeds directly to definition.
#[test]
fn test_repeat_request_skips_existing_disk() {
    let vm = VirtualMachine::new(
        "demo".to_string(),
        2,
        2048,
        20,
        "/vms/demo/demo.qcow2".to_string(),
    );
    let (mut flow, action) =
        CreateFlow::begin(&vm, true, true, Some("/vms/demo/demo-cidata.iso"), false).unwrap();
    match action {
        CreateAction::Define(xml) => {
            assert!(xml.contains("<name>demo</name>"));
        }
        other => panic!("expected definition, got {:?}", other),
    }
    assert_eq!(flow.phase, CreatePhase::Defining);
    let action = flow.on_define_result(true).unwrap();
    assert!(matches!(action, CreateAction::Start));
    let action = flow.on_start_result(true).unwrap();
    assert!(matches!(action, CreateAction::Done));
    assert_eq!(flow.phase, CreatePhase::Active);
}

// Creation without a connection is refused before anything else.
#[test]
fn test_create_requires_connection() {
    let vm = VirtualMachine::new("demo".to_string(), 1, 1024, 10, "/d.qcow2".to_string());
    let err = CreateFlow::begin(&vm, false, true, None, false).unwrap_err();
    assert!(matches!(err, VmError::NotConnected));
}

// A start that fails surfaces the last state reached.
#[test]
fn test_create_failure_surfaces_state() {
    let vm = VirtualMachine::new("demo".to_string(), 1, 1024, 10, "/d.qcow2".to_string());
    let (mut flow, _) = CreateFlow::begin(&vm, true, true, None, false).unwrap();
    flow.on_define_result(true).unwrap();
    let err = flow.on_start_result(false).unwrap_err();
    assert_eq!(
        err.describe(),
        "external tool failure: domain start failed in state starting; the domain stays defined"
    );
    assert_eq!(flow.phase, CreatePhase::Starting);
}

// The integrity check reports corruption without deleting anything.
#[test]
fn test_integrity_report_is_non_fatal() {
    assert!(DiskComposer::integrity_report(true, "").is_none());
    let report = DiskComposer::integrity_report(false, "leaked clusters").unwrap();
    assert!(matches!(report, VmError::IntegrityFailure(_)));
    assert_eq!(report.describe(), "integrity failure: leaked clusters");
}

// A non-zero disk utility exit is fatal with the captured diagnostic.
#[test]
fn test_tool_failure_carries_stderr() {
    let err = DiskComposer::interpret_tool_status(false, "qcow2: no space").unwrap_err();
    assert_eq!(err.describe(), "external tool failure: qcow2: no space");
    assert!(DiskComposer::interpret_tool_status(true, "").is_ok());
}

// Filesystem errors are their own stage in the taxonomy.
#[test]
fn test_error_taxonomy_labels() {
    assert_eq!(
        VmError::FilesystemFailure("cannot create /vms/demo".to_string()).describe(),
        "filesystem failure: cannot create /vms/demo"
    );
    assert_eq!(
        VmError::NotConnected.describe(),
        "not connected: hypervisor connection not established"
    );
}
