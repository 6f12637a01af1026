//! The disk composer: derives a per-VM copy-on-write overlay disk from
//! a base image and grows it to the requested size.
//!
//! The external disk utility does the work; this module decides. It
//! lays out the exact invocations, refuses to clobber an existing
//! guest disk, and never shrinks an overlay.

use crate::strutil::spec_views;
use crate::error::VmError;
use crate::strutil::spec_dec_string;
use crate::strutil::u32_to_string;
use vstd::prelude::*;

verus! {

/// The disk utility invocation that creates a copy-on-write overlay
/// over a base image.
pub open spec fn spec_create_args(base: Seq<char>, disk: Seq<char>) -> Seq<Seq<char>> {
    seq!["create"@, "-f"@, "qcow2"@, "-F"@, "qcow2"@, "-b"@, base, disk]
}

/// The disk utility invocation that grows an overlay to a size in GiB.
pub open spec fn spec_resize_args(disk: Seq<char>, size_gb: int) -> Seq<Seq<char>> {
    seq!["resize"@, disk, spec_dec_string(size_gb) + "G"@]
}

/// The disk utility invocation that checks an image's integrity.
pub open spec fn spec_check_args(path: Seq<char>) -> Seq<Seq<char>> {
    seq!["check"@, path]
}

/// The per-VM directory under a base directory.
pub open spec fn spec_vm_dir(target_dir: Seq<char>, vm_name: Seq<char>) -> Seq<char> {
    target_dir + "/"@ + vm_name
}

/// The deterministic overlay disk path of a machine.
pub open spec fn spec_disk_path(target_dir: Seq<char>, vm_name: Seq<char>) -> Seq<char> {
    spec_vm_dir(target_dir, vm_name) + "/"@ + vm_name + ".qcow2"@
}

/// The plan for composing one overlay disk: the directory to create if
/// absent, the disk path, the create invocation, and the resize
/// invocation when the requested size exceeds the base size.
#[derive(Debug)]
pub struct ComposePlan {
    pub vm_dir: String,
    pub disk_path: String,
    pub create_args: Vec<String>,
    pub resize_args: Option<Vec<String>>,
}

/// Derives per-VM overlay disks from base images.
pub struct DiskComposer;

impl DiskComposer {
    /// The deterministic overlay disk path of a machine inside its
    /// per-VM directory.
    pub fn compose_disk_path(target_dir: &str, vm_name: &str) -> (r: String)
        ensures
            r@ == spec_disk_path(target_dir@, vm_name@),
    {
        let r = String::from_str(target_dir).concat("/").concat(vm_name).concat("/").concat(
            vm_name,
        ).concat(".qcow2");
        proof {
            assert(r@ =~= spec_disk_path(target_dir@, vm_name@));
        }
        r
    }

    /// Lays the composition of one overlay disk out.
    ///
    /// A missing base image is fatal before any external call; an
    /// existing file at the target disk path is a refused
    /// precondition, so composition never clobbers an existing guest's
    /// storage. The overlay is grown exactly to the requested size
    /// when that exceeds the base size and is never shrunk.
    pub fn compose_plan(
        base_image: &str,
        base_exists: bool,
        target_dir: &str,
        vm_name: &str,
        target_exists: bool,
        size_gb: u32,
        base_size_gb: u32,
    ) -> (r: Result<ComposePlan, VmError>)
        ensures
            !base_exists ==> (r matches Err(e) && e matches VmError::NotFound(m) && m@
                == "base image missing: "@ + base_image@),
            base_exists && target_exists ==> (r matches Err(e) && e matches
                VmError::PreconditionViolated(m) && m@ == "disk already exists: "@
                + spec_disk_path(target_dir@, vm_name@)),
            base_exists && !target_exists ==> (r matches Ok(plan) && {
                &&& plan.vm_dir@ == spec_vm_dir(target_dir@, vm_name@)
                &&& plan.disk_path@ == spec_disk_path(target_dir@, vm_name@)
                &&& spec_views(plan.create_args@) == spec_create_args(base_image@, plan.disk_path@)
                &&& size_gb > base_size_gb ==> (plan.resize_args matches Some(a) && spec_views(a@)
                    == spec_resize_args(plan.disk_path@, size_gb as int))
                &&& size_gb <= base_size_gb ==> plan.resize_args is None
            }),
    {
        if !base_exists {
            let m = String::from_str("base image missing: ").concat(base_image);
            proof {
                assert(m@ =~= "base image missing: "@ + base_image@);
            }
            return Err(VmError::NotFound(m));
        }
        let disk_path = Self::compose_disk_path(target_dir, vm_name);
        if target_exists {
            let m = String::from_str("disk already exists: ").concat(disk_path.as_str());
            proof {
                assert(m@ =~= "disk already exists: "@ + spec_disk_path(target_dir@, vm_name@));
            }
            return Err(VmError::PreconditionViolated(m));
        }
        let vm_dir = String::from_str(target_dir).concat("/").concat(vm_name);
        proof {
            assert(vm_dir@ =~= spec_vm_dir(target_dir@, vm_name@));
        }
        let mut create_args: Vec<String> = Vec::new();
        create_args.push(String::from_str("create"));
        create_args.push(String::from_str("-f"));
        create_args.push(String::from_str("qcow2"));
        create_args.push(String::from_str("-F"));
        create_args.push(String::from_str("qcow2"));
        create_args.push(String::from_str("-b"));
        create_args.push(String::from_str(base_image));
        create_args.push(disk_path.clone());
        proof {
            assert(spec_views(create_args@) =~= spec_create_args(base_image@, disk_path@));
        }
        let resize_args: Option<Vec<String>> = if size_gb > base_size_gb {
            let mut a: Vec<String> = Vec::new();
            a.push(String::from_str("resize"));
            a.push(disk_path.clone());
            a.push(u32_to_string(size_gb).concat("G"));
            proof {
                assert(spec_views(a@) =~= spec_resize_args(disk_path@, size_gb as int));
            }
            Some(a)
        } else {
            None
        };
        Ok(ComposePlan { vm_dir, disk_path, create_args, resize_args })
    }

    /// The integrity check invocation for an image; its outcome is
    /// reported, never fatal to the artifact.
    pub fn check_args(path: &str) -> (r: Vec<String>)
        ensures
            spec_views(r@) == spec_check_args(path@),
    {
        let mut r: Vec<String> = Vec::new();
        r.push(String::from_str("check"));
        r.push(String::from_str(path));
        proof {
            assert(spec_views(r@) =~= spec_check_args(path@));
        }
        r
    }

    /// Turns the integrity check's exit into its report: a clean check
    /// reports nothing, a failed one reports corruption — and only
    /// reports it, the artifact is never deleted on that account.
    pub fn integrity_report(success: bool, detail: &str) -> (r: Option<VmError>)
        ensures
            success ==> r is None,
            !success ==> (r matches Some(e) && e matches VmError::IntegrityFailure(m) && m@
                == detail@),
    {
        if success {
            None
        } else {
            Some(VmError::IntegrityFailure(String::from_str(detail)))
        }
    }

    /// Turns a disk utility exit into the pipeline's outcome: success
    /// passes, and a non-zero exit is fatal with the captured
    /// diagnostic attached.
    pub fn interpret_tool_status(success: bool, stderr: &str) -> (r: Result<(), VmError>)
        ensures
            success <==> r is Ok,
            !success ==> (r matches Err(e) && e matches VmError::ExternalToolFailure(m) && m@
                == stderr@),
    {
        if success {
            Ok(())
        } else {
            Err(VmError::ExternalToolFailure(String::from_str(stderr)))
        }
    }
}

} // verus!
