//! Seed data for the guest's first boot: the rendering of the
//! user-data and meta-data documents, and the plan for bundling them
//! into a seed ISO with an external mastering tool.

use crate::error::VmError;
use crate::strutil::spec_views;
use vstd::prelude::*;

verus! {

/// The meta-data document: the instance id and local hostname, both
/// equal to the machine name.
pub open spec fn spec_meta_data(vm: Seq<char>) -> Seq<char> {
    "instance-id: "@ + vm + "\nlocal-hostname: "@ + vm + "\n"@
}

/// The user-data document: a multi-part cloud configuration that sets
/// hostname and FQDN, provisions one administrative user with
/// passwordless elevated privileges, installs the public key for the
/// default and the administrative user, sets the timezone, and
/// schedules the first-boot command that disables the seed service.
pub open spec fn spec_user_data(
    vm: Seq<char>,
    dns: Seq<char>,
    key: Seq<char>,
    user: Seq<char>,
    tz: Seq<char>,
    group: Seq<char>,
    disable: Seq<char>,
) -> Seq<char> {
    "Content-Type: multipart/mixed; boundary=\"==BOUNDARY==\"\nMIME-Version: 1.0\n--==BOUNDARY==\nContent-Type: text/cloud-config; charset=\"us-ascii\"\n\n#cloud-config\n\n# Hostname management\npreserve_hostname: False\nhostname: "@
        + vm + "\nfqdn: "@ + vm + "."@ + dns
        + "\n\n# Users\nusers:\n    - default\n    - name: "@ + user
        + "\n      groups: ['"@ + group
        + "']\n      shell: /bin/bash\n      sudo: ALL=(ALL) NOPASSWD:ALL\n      ssh-authorized-keys:\n        - "@
        + key
        + "\n\n# Configure where output will go\noutput:\n  all: \">> /var/log/cloud-init.log\"\n\n# configure interaction with ssh server\nssh_genkeytypes: ['ed25519', 'rsa']\n\n# Install my public ssh key to the user\nssh_authorized_keys:\n  - "@
        + key + "\n\ntimezone: "@ + tz
        + "\n\n# Remove cloud-init when finished with it\nruncmd:\n  - "@ + disable
        + "\n\n--==BOUNDARY==--\n"@
}

/// The argument list handed to the primary mastering tool.
pub open spec fn spec_genisoimage_args(
    iso: Seq<char>,
    ud: Seq<char>,
    md: Seq<char>,
) -> Seq<Seq<char>> {
    seq!["-output"@, iso, "-volid"@, "cidata"@, "-joliet"@, "-rock"@, ud, md]
}

/// The argument list handed to the fallback mastering tool.
pub open spec fn spec_mkisofs_args(iso: Seq<char>, ud: Seq<char>, md: Seq<char>) -> Seq<
    Seq<char>,
> {
    seq!["-o"@, iso, "-V"@, "cidata"@, "-J"@, "-r"@, ud, md]
}

/// The plan for one seed ISO: where the two documents are written,
/// where the ISO lands, and the exact mastering invocation.
#[derive(Debug)]
pub struct IsoPlan {
    pub user_data_path: String,
    pub meta_data_path: String,
    pub iso_path: String,
    pub tool: String,
    pub args: Vec<String>,
}

/// Renders and packages the first-boot seed data.
pub struct CloudInitManager;

impl CloudInitManager {
    /// Renders the user-data and meta-data documents for one machine,
    /// character for character as the two document specs state them.
    pub fn create_cloud_init_config(
        vm_name: &str,
        dns_domain: &str,
        ssh_public_key: &str,
        user: &str,
        timezone: &str,
        sudo_group: &str,
        cloud_init_disable: &str,
    ) -> (r: Result<(String, String), VmError>)
        ensures
            r matches Ok(docs) && docs.0@ == spec_user_data(
                vm_name@,
                dns_domain@,
                ssh_public_key@,
                user@,
                timezone@,
                sudo_group@,
                cloud_init_disable@,
            ) && docs.1@ == spec_meta_data(vm_name@),
    {
        let meta_data = String::from_str("instance-id: ").concat(vm_name).concat(
            "\nlocal-hostname: ",
        ).concat(vm_name).concat("\n");
        proof {
            assert(meta_data@ =~= spec_meta_data(vm_name@));
        }
        let user_data = String::from_str(
            "Content-Type: multipart/mixed; boundary=\"==BOUNDARY==\"\nMIME-Version: 1.0\n--==BOUNDARY==\nContent-Type: text/cloud-config; charset=\"us-ascii\"\n\n#cloud-config\n\n# Hostname management\npreserve_hostname: False\nhostname: ",
        ).concat(vm_name).concat("\nfqdn: ").concat(vm_name).concat(".").concat(dns_domain).concat(
            "\n\n# Users\nusers:\n    - default\n    - name: ",
        ).concat(user).concat("\n      groups: ['").concat(sudo_group).concat(
            "']\n      shell: /bin/bash\n      sudo: ALL=(ALL) NOPASSWD:ALL\n      ssh-authorized-keys:\n        - ",
        ).concat(ssh_public_key).concat(
            "\n\n# Configure where output will go\noutput:\n  all: \">> /var/log/cloud-init.log\"\n\n# configure interaction with ssh server\nssh_genkeytypes: ['ed25519', 'rsa']\n\n# Install my public ssh key to the user\nssh_authorized_keys:\n  - ",
        ).concat(ssh_public_key).concat("\n\ntimezone: ").concat(timezone).concat(
            "\n\n# Remove cloud-init when finished with it\nruncmd:\n  - ",
        ).concat(cloud_init_disable).concat("\n\n--==BOUNDARY==--\n");
        proof {
            assert(user_data@ =~= spec_user_data(
                vm_name@,
                dns_domain@,
                ssh_public_key@,
                user@,
                timezone@,
                sudo_group@,
                cloud_init_disable@,
            ));
        }
        Ok((user_data, meta_data))
    }

    /// Lays the seed ISO packaging out: the scratch paths of the two
    /// documents inside the work directory, the ISO path named after
    /// the machine, and the exact invocation of the primary mastering
    /// tool, of the fallback when only that one is available, or the
    /// error when neither is.
    pub fn create_cloud_init_iso_plan(
        work_dir: &str,
        vm_name: &str,
        has_genisoimage: bool,
        has_mkisofs: bool,
    ) -> (r: Result<IsoPlan, VmError>)
        ensures
            !has_genisoimage && !has_mkisofs ==> (r matches Err(e) && e matches
                VmError::ExternalToolFailure(m) && m@
                == "neither genisoimage nor mkisofs found; install one of these tools"@),
            has_genisoimage || has_mkisofs ==> (r matches Ok(plan) && {
                &&& plan.user_data_path@ == work_dir@ + "/user-data"@
                &&& plan.meta_data_path@ == work_dir@ + "/meta-data"@
                &&& plan.iso_path@ == work_dir@ + "/"@ + vm_name@ + "-cidata.iso"@
                &&& has_genisoimage ==> plan.tool@ == "genisoimage"@ && spec_views(plan.args@)
                    == spec_genisoimage_args(plan.iso_path@, plan.user_data_path@, plan.meta_data_path@)
                &&& !has_genisoimage ==> plan.tool@ == "mkisofs"@ && spec_views(plan.args@)
                    == spec_mkisofs_args(plan.iso_path@, plan.user_data_path@, plan.meta_data_path@)
            }),
    {
        if !has_genisoimage && !has_mkisofs {
            return Err(
                VmError::ExternalToolFailure(
                    String::from_str(
                        "neither genisoimage nor mkisofs found; install one of these tools",
                    ),
                ),
            );
        }
        let user_data_path = String::from_str(work_dir).concat("/user-data");
        let meta_data_path = String::from_str(work_dir).concat("/meta-data");
        let iso_path = String::from_str(work_dir).concat("/").concat(vm_name).concat("-cidata.iso");
        proof {
            assert(iso_path@ =~= work_dir@ + "/"@ + vm_name@ + "-cidata.iso"@);
        }
        let mut args: Vec<String> = Vec::new();
        let tool: String;
        if has_genisoimage {
            tool = String::from_str("genisoimage");
            args.push(String::from_str("-output"));
            args.push(iso_path.clone());
            args.push(String::from_str("-volid"));
            args.push(String::from_str("cidata"));
            args.push(String::from_str("-joliet"));
            args.push(String::from_str("-rock"));
            args.push(user_data_path.clone());
            args.push(meta_data_path.clone());
            proof {
                assert(spec_views(args@) =~= spec_genisoimage_args(
                    iso_path@,
                    user_data_path@,
                    meta_data_path@,
                ));
            }
        } else {
            tool = String::from_str("mkisofs");
            args.push(String::from_str("-o"));
            args.push(iso_path.clone());
            args.push(String::from_str("-V"));
            args.push(String::from_str("cidata"));
            args.push(String::from_str("-J"));
            args.push(String::from_str("-r"));
            args.push(user_data_path.clone());
            args.push(meta_data_path.clone());
            proof {
                assert(spec_views(args@) =~= spec_mkisofs_args(
                    iso_path@,
                    user_data_path@,
                    meta_data_path@,
                ));
            }
        }
        Ok(IsoPlan { user_data_path, meta_data_path, iso_path, tool, args })
    }

    /// The conventional public key files, in the order they are probed:
    /// the caller returns the first that exists in the user's key
    /// directory.
    pub fn ssh_key_candidates(ssh_dir: &str) -> (r: Vec<String>)
        ensures
            spec_views(r@) == seq![
                ssh_dir@ + "/id_rsa.pub"@,
                ssh_dir@ + "/id_ed25519.pub"@,
                ssh_dir@ + "/id_dsa.pub"@,
            ],
    {
        let mut r: Vec<String> = Vec::new();
        r.push(String::from_str(ssh_dir).concat("/id_rsa.pub"));
        r.push(String::from_str(ssh_dir).concat("/id_ed25519.pub"));
        r.push(String::from_str(ssh_dir).concat("/id_dsa.pub"));
        proof {
            assert(spec_views(r@) =~= seq![
                ssh_dir@ + "/id_rsa.pub"@,
                ssh_dir@ + "/id_ed25519.pub"@,
                ssh_dir@ + "/id_dsa.pub"@,
            ]);
        }
        r
    }
}

} // verus!
