//! The provisioning request, the domain description document, and the
//! create/destroy state machines of the domain controller.
//!
//! The hypervisor control plane is an external collaborator: the flows
//! here decide each next step, the caller performs it against the
//! control plane and reports the outcome back. Illegal transitions are
//! rejected by the flows' preconditions rather than by caller
//! discipline.

pub use crate::image::ImageManager;

use crate::domain::spec_extract_disk_paths;
use crate::strutil::spec_views;
use crate::error::VmError;
use crate::strutil::spec_dec_string;
use crate::strutil::u32_to_string;
use vstd::prelude::*;

verus! {

/// One distro profile: where its base image lives and how its guest is
/// configured on first boot. Immutable, loaded from configuration.
#[derive(Debug)]
pub struct DistroInfo {
    pub qcow_filename: String,
    pub os_variant: String,
    pub image_url: String,
    pub login_user: String,
    pub sudo_group: String,
    pub cloud_init_disable: String,
}

/// One provisioning request, created once per invocation and never
/// mutated afterwards.
#[derive(Debug)]
pub struct VirtualMachine {
    pub name: String,
    pub vcpus: u32,
    pub memory_mb: u32,
    pub disk_size_gb: u32,
    pub disk_path: String,
}

/// The seed-ISO attachment of the domain description, when one is
/// given.
pub open spec fn spec_seed_attachment(seed_iso: Option<Seq<char>>) -> Seq<char> {
    match seed_iso {
        Some(iso) =>
            "    <disk type='file' device='cdrom'>\n      <driver name='qemu' type='raw'/>\n      <source file='"@
            + iso + "'/>\n      <target dev='hdc' bus='ide'/>\n      <readonly/>\n    </disk>\n"@,
        None => Seq::empty(),
    }
}

/// The graphics device of the domain description, present exactly when
/// graphics are enabled.
pub open spec fn spec_graphics_device(graphics_enabled: bool) -> Seq<char> {
    if graphics_enabled {
        "    <graphics type='vnc' port='-1'/>\n"@
    } else {
        Seq::empty()
    }
}

/// The domain description document: one name, one memory size in MiB,
/// one vcpu count, the overlay disk, an optional seed-ISO attachment,
/// and the console, network and graphics devices.
pub open spec fn spec_domain_xml(
    name: Seq<char>,
    memory_mb: int,
    vcpus: int,
    disk_path: Seq<char>,
    seed_iso: Option<Seq<char>>,
    graphics_enabled: bool,
) -> Seq<char> {
    "<domain type='kvm'>\n  <name>"@ + name + "</name>\n  <memory unit='MiB'>"@ + spec_dec_string(
        memory_mb,
    ) + "</memory>\n  <vcpu>"@ + spec_dec_string(vcpus)
        + "</vcpu>\n  <os>\n    <type arch='x86_64'>hvm</type>\n    <boot dev='hd'/>\n  </os>\n  <features>\n    <acpi/>\n    <apic/>\n  </features>\n  <devices>\n    <disk type='file' device='disk'>\n      <driver name='qemu' type='qcow2'/>\n      <source file='"@
        + disk_path + "'/>\n      <target dev='vda' bus='virtio'/>\n    </disk>\n"@
        + spec_seed_attachment(seed_iso)
        + "    <interface type='user'>\n      <model type='virtio'/>\n    </interface>\n    <console type='pty'/>\n"@
        + spec_graphics_device(graphics_enabled) + "  </devices>\n</domain>\n"@
}

/// The disk utility invocation that creates a fresh, non-backed disk
/// of a size in GiB.
pub open spec fn spec_fresh_disk_args(disk: Seq<char>, size_gb: int) -> Seq<Seq<char>> {
    seq!["create"@, "-f"@, "qcow2"@, disk, spec_dec_string(size_gb) + "G"@]
}

impl VirtualMachine {
    /// A request with the given shape; nothing is touched yet.
    pub fn new(name: String, vcpus: u32, memory_mb: u32, disk_size_gb: u32, disk_path: String) -> (r:
        VirtualMachine)
        ensures
            r.name == name,
            r.vcpus == vcpus,
            r.memory_mb == memory_mb,
            r.disk_size_gb == disk_size_gb,
            r.disk_path == disk_path,
    {
        VirtualMachine { name, vcpus, memory_mb, disk_path, disk_size_gb }
    }

    /// Renders the domain description document for this request,
    /// character for character as `spec_domain_xml` states it.
    pub fn generate_domain_xml(&self, seed_iso: Option<&str>, graphics_enabled: bool) -> (r:
        String)
        ensures
            r@ == spec_domain_xml(
                self.name@,
                self.memory_mb as int,
                self.vcpus as int,
                self.disk_path@,
                match seed_iso {
                    Some(iso) => Some(iso@),
                    None => None,
                },
                graphics_enabled,
            ),
    {
        let mut x = String::from_str("<domain type='kvm'>\n  <name>");
        x.append(self.name.as_str());
        x.append("</name>\n  <memory unit='MiB'>");
        x.append(u32_to_string(self.memory_mb).as_str());
        x.append("</memory>\n  <vcpu>");
        x.append(u32_to_string(self.vcpus).as_str());
        x.append(
            "</vcpu>\n  <os>\n    <type arch='x86_64'>hvm</type>\n    <boot dev='hd'/>\n  </os>\n  <features>\n    <acpi/>\n    <apic/>\n  </features>\n  <devices>\n    <disk type='file' device='disk'>\n      <driver name='qemu' type='qcow2'/>\n      <source file='",
        );
        x.append(self.disk_path.as_str());
        x.append("'/>\n      <target dev='vda' bus='virtio'/>\n    </disk>\n");
        match seed_iso {
            Some(iso) => {
                x.append(
                    "    <disk type='file' device='cdrom'>\n      <driver name='qemu' type='raw'/>\n      <source file='",
                );
                x.append(iso);
                x.append("'/>\n      <target dev='hdc' bus='ide'/>\n      <readonly/>\n    </disk>\n");
            },
            None => {},
        }
        x.append(
            "    <interface type='user'>\n      <model type='virtio'/>\n    </interface>\n    <console type='pty'/>\n",
        );
        if graphics_enabled {
            x.append("    <graphics type='vnc' port='-1'/>\n");
        }
        x.append("  </devices>\n</domain>\n");
        proof {
            assert(x@ =~= spec_domain_xml(
                self.name@,
                self.memory_mb as int,
                self.vcpus as int,
                self.disk_path@,
                match seed_iso {
                    Some(iso) => Some(iso@),
                    None => None,
                },
                graphics_enabled,
            ));
        }
        x
    }

    /// The disk utility invocation that creates this request's disk
    /// afresh at its requested size.
    pub fn fresh_disk_args(&self) -> (r: Vec<String>)
        ensures
            spec_views(r@) == spec_fresh_disk_args(self.disk_path@, self.disk_size_gb as int),
    {
        let mut r: Vec<String> = Vec::new();
        r.push(String::from_str("create"));
        r.push(String::from_str("-f"));
        r.push(String::from_str("qcow2"));
        r.push(self.disk_path.clone());
        r.push(u32_to_string(self.disk_size_gb).concat("G"));
        proof {
            assert(spec_views(r@) =~= spec_fresh_disk_args(
                self.disk_path@,
                self.disk_size_gb as int,
            ));
        }
        r
    }
}

/// The hypervisor endpoint a run connects to: an explicit override
/// when one is given, else the documented default — the per-user
/// session endpoint. Any other endpoint, the system-wide one
/// included, is reached only by explicit override.
pub fn connection_uri<'a>(override_uri: Option<&'a str>) -> (r: &'a str)
    ensures
        match override_uri {
            Some(u) => r@ == u@,
            None => r@ == "qemu:///session"@,
        },
{
    match override_uri {
        Some(u) => u,
        None => "qemu:///session",
    }
}

/// The states of the creation path.
#[derive(Debug, PartialEq, Eq, Structural, Clone, Copy)]
pub enum CreatePhase {
    /// Nothing submitted to the hypervisor yet.
    Undefined,
    /// The description document was handed out for definition.
    Defining,
    /// The hypervisor accepted the definition.
    Defined,
    /// Start was issued.
    Starting,
    /// The domain runs.
    Active,
}

/// What the caller is asked to do next while creating a domain.
#[derive(Debug)]
pub enum CreateAction {
    /// Run the disk utility with these arguments to create the disk.
    CreateDisk(Vec<String>),
    /// Submit this description document to the hypervisor.
    Define(String),
    /// Issue start for the defined domain.
    Start,
    /// The domain is active; nothing is left to do.
    Done,
}

/// The creation state machine of one request. A failure before the
/// domain is active surfaces the last state reached; it never
/// silently leaves a defined-but-unstartable domain behind.
#[derive(Debug)]
pub struct CreateFlow {
    pub phase: CreatePhase,
    pub domain_xml: String,
}

impl CreateFlow {
    /// Begins creation. A missing hypervisor connection is refused
    /// before anything else; an already existing disk is kept, and
    /// creation proceeds directly to definition.
    pub fn begin(
        vm: &VirtualMachine,
        connected: bool,
        disk_exists: bool,
        seed_iso: Option<&str>,
        graphics_enabled: bool,
    ) -> (r: Result<(CreateFlow, CreateAction), VmError>)
        ensures
            !connected ==> (r matches Err(e) && e is NotConnected),
            connected ==> (r matches Ok(p) && {
                &&& p.0.domain_xml@ == spec_domain_xml(
                    vm.name@,
                    vm.memory_mb as int,
                    vm.vcpus as int,
                    vm.disk_path@,
                    match seed_iso {
                        Some(iso) => Some(iso@),
                        None => None,
                    },
                    graphics_enabled,
                )
                &&& disk_exists ==> p.0.phase == CreatePhase::Defining && (p.1 matches
                    CreateAction::Define(x) && x@ == p.0.domain_xml@)
                &&& !disk_exists ==> p.0.phase == CreatePhase::Undefined && (p.1 matches
                    CreateAction::CreateDisk(a) && spec_views(a@) == spec_fresh_disk_args(
                    vm.disk_path@,
                    vm.disk_size_gb as int,
                ))
            }),
    {
        if !connected {
            return Err(VmError::NotConnected);
        }
        let xml = vm.generate_domain_xml(seed_iso, graphics_enabled);
        if disk_exists {
            let action = CreateAction::Define(xml.clone());
            Ok((CreateFlow { phase: CreatePhase::Defining, domain_xml: xml }, action))
        } else {
            let action = CreateAction::CreateDisk(vm.fresh_disk_args());
            Ok((CreateFlow { phase: CreatePhase::Undefined, domain_xml: xml }, action))
        }
    }

    /// Takes the disk utility's outcome: a failure is fatal with the
    /// captured diagnostic and surfaces the state reached; success
    /// proceeds to definition.
    pub fn on_disk_created(&mut self, success: bool, stderr: &str) -> (r: Result<
        CreateAction,
        VmError,
    >)
        requires
            old(self).phase == CreatePhase::Undefined,
        ensures
            final(self).domain_xml == old(self).domain_xml,
            success ==> final(self).phase == CreatePhase::Defining && (r matches Ok(a) && a matches
                CreateAction::Define(x) && x@ == old(self).domain_xml@),
            !success ==> final(self).phase == CreatePhase::Undefined && (r matches Err(e)
                && e matches VmError::ExternalToolFailure(m) && m@
                == "disk creation failed in state undefined: "@ + stderr@),
    {
        if success {
            self.phase = CreatePhase::Defining;
            Ok(CreateAction::Define(self.domain_xml.clone()))
        } else {
            let m = String::from_str("disk creation failed in state undefined: ").concat(stderr);
            proof {
                assert(m@ =~= "disk creation failed in state undefined: "@ + stderr@);
            }
            Err(VmError::ExternalToolFailure(m))
        }
    }

    /// Takes the hypervisor's answer to the definition: acceptance
    /// reaches the defined state and issues start; refusal surfaces
    /// the defining state.
    pub fn on_define_result(&mut self, success: bool) -> (r: Result<CreateAction, VmError>)
        requires
            old(self).phase == CreatePhase::Defining,
        ensures
            final(self).domain_xml == old(self).domain_xml,
            success ==> final(self).phase == CreatePhase::Defined && (r matches Ok(a) && a is
                Start),
            !success ==> final(self).phase == CreatePhase::Defining && (r matches Err(e)
                && e matches VmError::ExternalToolFailure(m) && m@
                == "hypervisor refused the domain definition in state defining"@),
    {
        if success {
            self.phase = CreatePhase::Defined;
            Ok(CreateAction::Start)
        } else {
            Err(
                VmError::ExternalToolFailure(
                    String::from_str("hypervisor refused the domain definition in state defining"),
                ),
            )
        }
    }

    /// Takes the hypervisor's answer to the issued start: success
    /// reaches the active state; failure surfaces the starting state,
    /// with the domain left defined for the caller to see, never
    /// silently.
    pub fn on_start_result(&mut self, success: bool) -> (r: Result<CreateAction, VmError>)
        requires
            old(self).phase == CreatePhase::Defined,
        ensures
            final(self).domain_xml == old(self).domain_xml,
            success ==> final(self).phase == CreatePhase::Active && (r matches Ok(a) && a is Done),
            !success ==> final(self).phase == CreatePhase::Starting && (r matches Err(e)
                && e matches VmError::ExternalToolFailure(m) && m@
                == "domain start failed in state starting; the domain stays defined"@),
    {
        if success {
            self.phase = CreatePhase::Active;
            Ok(CreateAction::Done)
        } else {
            self.phase = CreatePhase::Starting;
            Err(
                VmError::ExternalToolFailure(
                    String::from_str("domain start failed in state starting; the domain stays defined"),
                ),
            )
        }
    }
}

/// The states of the teardown path.
#[derive(Debug, PartialEq, Eq, Structural, Clone, Copy)]
pub enum DestroyPhase {
    /// A stop was issued for the active domain.
    Stopping,
    /// The undefine was issued.
    Undefining,
    /// The extracted disk paths are being deleted, one by one.
    RemovingDisks,
    /// Teardown is finished.
    Done,
}

/// What the caller is asked to do next while destroying a domain.
#[derive(Debug)]
pub enum DestroyAction {
    /// Ask the hypervisor to stop the domain; best-effort.
    Stop,
    /// Undefine the domain, removing managed-save state, snapshot
    /// metadata and NVRAM artifacts with it.
    Undefine,
    /// Delete the file at this path; best-effort.
    RemoveDisk(String),
    /// Teardown is finished; any retained paths are in the flow.
    Done,
}

/// The teardown state machine of one domain.
///
/// The disk source paths are captured from the live description before
/// the undefine — the only reliable moment they are still obtainable.
/// Stopping and per-file deletion are best-effort; the undefine is the
/// operation that must succeed.
#[derive(Debug)]
pub struct DestroyFlow {
    pub phase: DestroyPhase,
    /// Every disk source path of the domain's description, in document
    /// order; when deletion is not requested these are reported to the
    /// caller for manual cleanup.
    pub disk_paths: Vec<String>,
    pub remove_disk: bool,
    /// How many of the extracted paths have been attempted.
    pub next_disk: usize,
    /// The paths whose deletion failed; deletion of the others is
    /// attempted regardless.
    pub failed_removals: Vec<String>,
}

impl DestroyFlow {
    /// Begins teardown from what the lookup found. A domain that is
    /// not there is a reported `NotFound` error, and no action touches
    /// the hypervisor. The disk paths are extracted from the given
    /// description here, before any undefine is handed out; an
    /// inactive domain skips the stop step.
    pub fn begin(name: &str, found: bool, active: bool, xml: &str, remove_disk: bool) -> (r: Result<
        (DestroyFlow, DestroyAction),
        VmError,
    >)
        ensures
            !found ==> (r matches Err(e) && e matches VmError::NotFound(m) && m@
                == "domain not found: "@ + name@),
            found ==> (r matches Ok(p) && {
                &&& spec_views(p.0.disk_paths@) == spec_extract_disk_paths(xml@)
                &&& p.0.remove_disk == remove_disk
                &&& p.0.next_disk == 0
                &&& p.0.failed_removals@ == Seq::<String>::empty()
                &&& active ==> p.0.phase == DestroyPhase::Stopping && p.1 is Stop
                &&& !active ==> p.0.phase == DestroyPhase::Undefining && p.1 is Undefine
            }),
    {
        if !found {
            let m = String::from_str("domain not found: ").concat(name);
            proof {
                assert(m@ =~= "domain not found: "@ + name@);
            }
            return Err(VmError::NotFound(m));
        }
        let disk_paths = crate::domain::extract_disk_paths_from_xml(xml);
        let flow = DestroyFlow {
            phase: if active {
                DestroyPhase::Stopping
            } else {
                DestroyPhase::Undefining
            },
            disk_paths,
            remove_disk,
            next_disk: 0,
            failed_removals: Vec::new(),
        };
        let action = if active {
            DestroyAction::Stop
        } else {
            DestroyAction::Undefine
        };
        Ok((flow, action))
    }

    /// Takes the outcome of the stop. Stopping is best-effort: whether
    /// or not it went cleanly, the flow proceeds to the undefine.
    pub fn on_stop_result(&mut self, success: bool) -> (a: DestroyAction)
        requires
            old(self).phase == DestroyPhase::Stopping,
        ensures
            final(self).phase == DestroyPhase::Undefining,
            final(self).disk_paths == old(self).disk_paths,
            final(self).remove_disk == old(self).remove_disk,
            final(self).next_disk == old(self).next_disk,
            final(self).failed_removals == old(self).failed_removals,
            a is Undefine,
    {
        self.phase = DestroyPhase::Undefining;
        DestroyAction::Undefine
    }

    /// Takes the outcome of the undefine: the one step that must
    /// succeed. On success, deletion of the extracted paths begins
    /// when it was requested and there is anything to delete;
    /// otherwise teardown is finished and the paths stay reported in
    /// the flow.
    pub fn on_undefine_result(&mut self, success: bool) -> (r: Result<DestroyAction, VmError>)
        requires
            old(self).phase == DestroyPhase::Undefining,
            old(self).next_disk == 0,
        ensures
            final(self).disk_paths == old(self).disk_paths,
            final(self).remove_disk == old(self).remove_disk,
            final(self).failed_removals == old(self).failed_removals,
            !success ==> (r matches Err(e) && e matches VmError::ExternalToolFailure(m) && m@
                == "failed to undefine domain"@) && final(self).phase == DestroyPhase::Undefining,
            success && old(self).remove_disk && old(self).disk_paths@.len() > 0 ==> (
            final(self).phase == DestroyPhase::RemovingDisks && final(self).next_disk == 0 && (
            r matches Ok(a) && a matches DestroyAction::RemoveDisk(p) && p == old(
                self,
            ).disk_paths@[0])),
            success && !(old(self).remove_disk && old(self).disk_paths@.len() > 0) ==> (
            final(self).phase == DestroyPhase::Done && (r matches Ok(a) && a is Done)),
    {
        if !success {
            return Err(VmError::ExternalToolFailure(String::from_str("failed to undefine domain")));
        }
        if self.remove_disk && self.disk_paths.len() > 0 {
            self.phase = DestroyPhase::RemovingDisks;
            Ok(DestroyAction::RemoveDisk(self.disk_paths[0].clone()))
        } else {
            self.phase = DestroyPhase::Done;
            Ok(DestroyAction::Done)
        }
    }

    /// Takes the outcome of one deletion. Deletion is best-effort per
    /// file: the flow advances to the next extracted path whether or
    /// not this one could be deleted, and a failed path is only
    /// recorded. The domain itself was already undefined before any
    /// deletion began.
    pub fn on_disk_removal_result(&mut self, success: bool) -> (a: DestroyAction)
        requires
            old(self).phase == DestroyPhase::RemovingDisks,
            old(self).next_disk < old(self).disk_paths@.len(),
        ensures
            final(self).disk_paths == old(self).disk_paths,
            final(self).remove_disk == old(self).remove_disk,
            final(self).next_disk == old(self).next_disk + 1,
            success ==> final(self).failed_removals == old(self).failed_removals,
            !success ==> final(self).failed_removals@ == old(self).failed_removals@.push(
                old(self).disk_paths@[old(self).next_disk as int],
            ),
            old(self).next_disk + 1 < old(self).disk_paths@.len() ==> final(self).phase
                == DestroyPhase::RemovingDisks && (a matches DestroyAction::RemoveDisk(p) && p
                == old(self).disk_paths@[old(self).next_disk + 1]),
            old(self).next_disk + 1 == old(self).disk_paths@.len() ==> final(self).phase
                == DestroyPhase::Done && a is Done,
    {
        let n = self.disk_paths.len();
        if !success {
            self.failed_removals.push(self.disk_paths[self.next_disk].clone());
        }
        assert(self.next_disk < n);
        self.next_disk = self.next_disk + 1;
        if self.next_disk < self.disk_paths.len() {
            DestroyAction::RemoveDisk(self.disk_paths[self.next_disk].clone())
        } else {
            self.phase = DestroyPhase::Done;
            DestroyAction::Done
        }
    }
}

/// The stages of preparing a machine's artifacts, in their one legal
/// order.
#[derive(Debug, PartialEq, Eq, Structural, Clone, Copy)]
pub enum PreparePhase {
    /// The base image is being located or transferred.
    AcquiringImage,
    /// The overlay disk is being composed over the acquired image.
    ComposingDisk,
    /// The seed documents are being rendered and mastered.
    PackagingSeed,
    /// Everything on disk is in place; the domain may be defined.
    ReadyToDefine,
}

/// The preparation pipeline of one request, stage by stage.
///
/// Its well-formedness is the ordering the design forbids to break: an
/// overlay disk is never composed before its base image is on stable
/// storage, and a domain is never defined before its disk was fully
/// composed.
#[derive(Debug)]
pub struct PrepareFlow {
    pub phase: PreparePhase,
    pub base_image: Option<String>,
    pub disk_path: Option<String>,
    pub seed_iso: Option<String>,
}

impl PrepareFlow {
    /// The stage ordering: each artifact exists only when everything
    /// it builds on exists.
    pub open spec fn wf(self) -> bool {
        &&& self.disk_path is Some ==> self.base_image is Some
        &&& self.seed_iso is Some ==> self.disk_path is Some
        &&& self.phase == PreparePhase::ComposingDisk ==> self.base_image is Some
        &&& self.phase == PreparePhase::PackagingSeed ==> self.disk_path is Some
        &&& self.phase == PreparePhase::ReadyToDefine ==> self.seed_iso is Some
    }

    /// Begins preparation; nothing exists yet.
    pub fn begin() -> (r: PrepareFlow)
        ensures
            r.wf(),
            r.phase == PreparePhase::AcquiringImage,
            r.base_image is None,
            r.disk_path is None,
            r.seed_iso is None,
    {
        PrepareFlow {
            phase: PreparePhase::AcquiringImage,
            base_image: None,
            disk_path: None,
            seed_iso: None,
        }
    }

    /// Records that the base image is complete on stable storage;
    /// only then may the disk be composed.
    pub fn on_image_acquired(&mut self, path: String)
        requires
            old(self).phase == PreparePhase::AcquiringImage,
            old(self).wf(),
        ensures
            final(self).wf(),
            final(self).phase == PreparePhase::ComposingDisk,
            final(self).base_image == Some(path),
            final(self).disk_path == old(self).disk_path,
            final(self).seed_iso == old(self).seed_iso,
    {
        self.base_image = Some(path);
        self.phase = PreparePhase::ComposingDisk;
    }

    /// Records that the overlay disk is fully composed; only then may
    /// the seed be packaged.
    pub fn on_disk_composed(&mut self, path: String)
        requires
            old(self).phase == PreparePhase::ComposingDisk,
            old(self).wf(),
        ensures
            final(self).wf(),
            final(self).phase == PreparePhase::PackagingSeed,
            final(self).base_image == old(self).base_image,
            final(self).disk_path == Some(path),
            final(self).seed_iso == old(self).seed_iso,
    {
        self.disk_path = Some(path);
        self.phase = PreparePhase::PackagingSeed;
    }

    /// Records the mastered seed ISO; the domain may now be defined.
    pub fn on_seed_packaged(&mut self, iso_path: String)
        requires
            old(self).phase == PreparePhase::PackagingSeed,
            old(self).wf(),
        ensures
            final(self).wf(),
            final(self).phase == PreparePhase::ReadyToDefine,
            final(self).base_image == old(self).base_image,
            final(self).disk_path == old(self).disk_path,
            final(self).seed_iso == Some(iso_path),
    {
        self.seed_iso = Some(iso_path);
        self.phase = PreparePhase::ReadyToDefine;
    }
}

} // verus!
