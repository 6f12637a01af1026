//! Static configuration: the table of distro profiles and the default
//! settings of the pipeline.
//!
//! Loading and saving configuration files is thin surrounding glue and
//! stays outside the library; the types here are the values that glue
//! hands in.

use crate::error::VmError;
use crate::vm::DistroInfo;
use vstd::prelude::*;

verus! {

/// A table of distro profiles keyed by distro id.
///
/// Lookups return the entry stored for a key; `insert` replaces an
/// existing entry for the same key in place.
#[derive(Debug)]
pub struct DistroMap {
    entries: Vec<(String, DistroInfo)>,
}

impl DistroMap {
    /// The stored entries, in order.
    pub closed spec fn spec_entries(self) -> Seq<(String, DistroInfo)> {
        self.entries@
    }

    /// The entry a lookup for `name` finds in `s`: the first one whose
    /// key is `name`.
    pub open spec fn spec_get_from(s: Seq<(String, DistroInfo)>, name: Seq<char>) -> Option<
        DistroInfo,
    >
        decreases s.len(),
    {
        if s.len() == 0 {
            None
        } else if s[0].0@ == name {
            Some(s[0].1)
        } else {
            Self::spec_get_from(s.drop_first(), name)
        }
    }

    /// The entry stored for `name`, if any.
    pub open spec fn spec_get(self, name: Seq<char>) -> Option<DistroInfo> {
        Self::spec_get_from(self.spec_entries(), name)
    }

    /// Whether an entry is stored for `name`.
    pub open spec fn spec_contains(self, name: Seq<char>) -> bool {
        self.spec_get(name) is Some
    }

    /// An empty table.
    pub fn new() -> (r: DistroMap)
        ensures
            r.spec_entries() == Seq::<(String, DistroInfo)>::empty(),
            forall|o: Seq<char>| r.spec_get(o) is None,
    {
        let r = DistroMap { entries: Vec::new() };
        proof {
            assert(forall|o: Seq<char>| r.spec_get(o) is None);
        }
        r
    }

    /// The stored entries, in order.
    pub fn entries(&self) -> (r: &Vec<(String, DistroInfo)>)
        ensures
            r@ == self.spec_entries(),
    {
        &self.entries
    }

    /// How many profiles the table holds.
    pub fn len(&self) -> (n: usize)
        ensures
            n == self.spec_entries().len(),
    {
        self.entries.len()
    }

    /// Looks the profile for `name` up.
    pub fn get(&self, name: &str) -> (r: Option<&DistroInfo>)
        ensures
            match r {
                Some(d) => self.spec_get(name@) == Some(*d),
                None => self.spec_get(name@) is None,
            },
    {
        let ghost s = self.entries@;
        proof {
            assert(s.skip(0) =~= s);
        }
        let mut i: usize = 0;
        while i < self.entries.len()
            invariant
                i <= s.len(),
                self.entries@ == s,
                Self::spec_get_from(s.skip(i as int), name@) == Self::spec_get_from(s, name@),
            decreases s.len() - i,
        {
            proof {
                assert(s.skip(i as int)[0] == s[i as int]);
                assert(s.skip(i as int).drop_first() =~= s.skip(i + 1));
            }
            if crate::strutil::str_eq(self.entries[i].0.as_str(), name) {
                return Some(&self.entries[i].1);
            }
            i = i + 1;
        }
        proof {
            assert(s.skip(s.len() as int) =~= Seq::<(String, DistroInfo)>::empty());
        }
        None
    }

    /// Whether the table holds a profile for `name`.
    pub fn contains_key(&self, name: &str) -> (b: bool)
        ensures
            b == self.spec_contains(name@),
    {
        self.get(name).is_some()
    }

    /// Stores `info` under `name`, replacing any entry stored for the
    /// same key; entries for other keys are untouched.
    pub fn insert(&mut self, name: String, info: DistroInfo)
        ensures
            final(self).spec_get(name@) == Some(info),
            forall|o: Seq<char>|
                o != name@ ==> final(self).spec_get(o) == old(self).spec_get(o),
            old(self).spec_contains(name@) ==> final(self).spec_entries().len() == old(
                self,
            ).spec_entries().len(),
            !old(self).spec_contains(name@) ==> final(self).spec_entries().len() == old(
                self,
            ).spec_entries().len() + 1,
    {
        let ghost s = self.entries@;
        let mut i: usize = 0;
        while i < self.entries.len()
            invariant
                i <= s.len(),
                self.entries@ == s,
                old(self).spec_entries() == s,
                forall|k: int| 0 <= k < i ==> s[k].0@ != name@,
            decreases s.len() - i,
        {
            if crate::strutil::str_eq(self.entries[i].0.as_str(), name.as_str()) {
                let v = (name, info);
                proof {
                    Self::lemma_get_update(s, i as int, v);
                    Self::lemma_get_prefix_miss(s, i as int, v.0@);
                }
                self.entries.set(i, v);
                return ;
            }
            i = i + 1;
        }
        let v = (name, info);
        proof {
            Self::lemma_get_insert_front(s, v);
            Self::lemma_get_all_miss(s, v.0@);
        }
        self.entries.insert(0, v);
    }

    /// A lookup that misses every key of a prefix is settled by the
    /// entry at the end of that prefix.
    proof fn lemma_get_prefix_miss(s: Seq<(String, DistroInfo)>, i: int, name: Seq<char>)
        requires
            0 <= i < s.len(),
            forall|k: int| 0 <= k < i ==> s[k].0@ != name,
            s[i].0@ == name,
        ensures
            Self::spec_get_from(s, name) == Some(s[i].1),
        decreases i,
    {
        if i == 0 {
        } else {
            assert(s.drop_first()[i - 1] == s[i]);
            Self::lemma_get_prefix_miss(s.drop_first(), i - 1, name);
        }
    }

    /// A lookup that misses every key of `s` finds nothing.
    proof fn lemma_get_all_miss(s: Seq<(String, DistroInfo)>, name: Seq<char>)
        requires
            forall|k: int| 0 <= k < s.len() ==> s[k].0@ != name,
        ensures
            Self::spec_get_from(s, name) is None,
        decreases s.len(),
    {
        if s.len() > 0 {
            Self::lemma_get_all_miss(s.drop_first(), name);
        }
    }

    /// Replacing the first entry that carries a key changes lookups for
    /// that key alone.
    proof fn lemma_get_update(s: Seq<(String, DistroInfo)>, i: int, v: (String, DistroInfo))
        requires
            0 <= i < s.len(),
            forall|k: int| 0 <= k < i ==> s[k].0@ != v.0@,
            s[i].0@ == v.0@,
        ensures
            Self::spec_get_from(s.update(i, v), v.0@) == Some(v.1),
            forall|o: Seq<char>|
                o != v.0@ ==> Self::spec_get_from(s.update(i, v), o) == Self::spec_get_from(s, o),
        decreases i,
    {
        let t = s.update(i, v);
        if i == 0 {
            assert(t[0] == v);
            assert(t.drop_first() =~= s.drop_first());
            assert forall|o: Seq<char>| o != v.0@ implies Self::spec_get_from(t, o)
                == Self::spec_get_from(s, o) by {
                assert(s[0].0@ == v.0@);
                assert(Self::spec_get_from(t, o) == Self::spec_get_from(t.drop_first(), o));
                assert(Self::spec_get_from(s, o) == Self::spec_get_from(s.drop_first(), o));
            }
        } else {
            assert(t[0] == s[0]);
            assert(t.drop_first() =~= s.drop_first().update(i - 1, v));
            assert(s.drop_first()[i - 1] == s[i]);
            assert(forall|k: int| 0 <= k < i - 1 ==> s.drop_first()[k] == s[k + 1]);
            Self::lemma_get_update(s.drop_first(), i - 1, v);
            assert(s[0].0@ != v.0@);
            assert(Self::spec_get_from(t, v.0@) == Self::spec_get_from(t.drop_first(), v.0@));
            assert forall|o: Seq<char>| o != v.0@ implies Self::spec_get_from(t, o)
                == Self::spec_get_from(s, o) by {
                if s[0].0@ == o {
                    assert(Self::spec_get_from(t, o) == Some(t[0].1));
                    assert(Self::spec_get_from(s, o) == Some(s[0].1));
                } else {
                    assert(Self::spec_get_from(t, o) == Self::spec_get_from(t.drop_first(), o));
                    assert(Self::spec_get_from(s, o) == Self::spec_get_from(s.drop_first(), o));
                }
            }
        }
    }

    /// Putting an entry at the front settles lookups for its key and
    /// leaves every other lookup as it was.
    proof fn lemma_get_insert_front(s: Seq<(String, DistroInfo)>, v: (String, DistroInfo))
        ensures
            Self::spec_get_from(s.insert(0, v), v.0@) == Some(v.1),
            forall|o: Seq<char>|
                o != v.0@ ==> Self::spec_get_from(s.insert(0, v), o) == Self::spec_get_from(s, o),
    {
        let t = s.insert(0, v);
        assert(t[0] == v);
        assert(t.drop_first() =~= s);
    }
}

/// The default settings of the pipeline.
#[derive(Debug)]
pub struct DefaultConfig {
    pub memory_mb: u32,
    pub vcpus: u32,
    pub disk_size_gb: u32,
    pub image_dir: String,
    pub vm_dir: String,
    pub dns_domain: String,
    pub timezone: String,
}

impl DefaultConfig {
    /// The default settings, with the cache directories placed under
    /// the given home directory.
    pub fn with_home_dir(home: &str) -> (r: DefaultConfig)
        ensures
            r.memory_mb == 1024,
            r.vcpus == 1,
            r.disk_size_gb == 10,
            r.image_dir@ == home@ + "/virt/images"@,
            r.vm_dir@ == home@ + "/virt/vms"@,
            r.dns_domain@ == "example.local"@,
            r.timezone@ == "UTC"@,
    {
        DefaultConfig {
            memory_mb: 1024,
            vcpus: 1,
            disk_size_gb: 10,
            image_dir: String::from_str(home).concat("/virt/images"),
            vm_dir: String::from_str(home).concat("/virt/vms"),
            dns_domain: String::from_str("example.local"),
            timezone: String::from_str("UTC"),
        }
    }
}

/// Relies on dirs::home_dir: the home directory the environment
/// reports, if any, as text. The result depends on the environment
/// alone, so nothing is stated of it.
#[verifier::external_body]
fn home_dir_string() -> (r: Option<String>) {
    dirs::home_dir().map(|p| p.to_string_lossy().to_string())
}

impl Default for DefaultConfig {
    /// The default settings; the cache directories land under the
    /// user's home directory, or under `.` when none is reported.
    fn default() -> (r: DefaultConfig)
        ensures
            r.memory_mb == 1024,
            r.vcpus == 1,
            r.disk_size_gb == 10,
            exists|h: Seq<char>|
                r.image_dir@ == h + "/virt/images"@ && r.vm_dir@ == h + "/virt/vms"@,
            r.dns_domain@ == "example.local"@,
            r.timezone@ == "UTC"@,
    {
        let home = match home_dir_string() {
            Some(h) => h,
            None => String::from_str("."),
        };
        let r = DefaultConfig::with_home_dir(home.as_str());
        proof {
            let h = home@;
            assert(r.image_dir@ == h + "/virt/images"@ && r.vm_dir@ == h + "/virt/vms"@);
        }
        r
    }
}

/// The static configuration: the distro profiles and the defaults.
#[derive(Debug)]
pub struct Config {
    pub distros: DistroMap,
    pub defaults: DefaultConfig,
}

impl Config {
    /// Looks the profile for a distro id up; a missing id is a
    /// `NotFound` error naming it.
    pub fn get_distro(&self, name: &str) -> (r: Result<&DistroInfo, VmError>)
        ensures
            self.distros.spec_contains(name@) ==> (r matches Ok(d) && self.distros.spec_get(name@)
                == Some(*d)),
            !self.distros.spec_contains(name@) ==> (r matches Err(e) && e matches
                VmError::NotFound(m) && m@ == "distribution '"@ + name@
                + "' not found in configuration"@),
    {
        match self.distros.get(name) {
            Some(d) => Ok(d),
            None => {
                let m = String::from_str("distribution '").concat(name).concat(
                    "' not found in configuration",
                );
                proof {
                    assert(m@ =~= "distribution '"@ + name@ + "' not found in configuration"@);
                }
                Err(VmError::NotFound(m))
            },
        }
    }
}

/// The fields of the built-in CentOS 8 profile.
pub open spec fn spec_is_centos8(d: DistroInfo) -> bool {
    &&& d.qcow_filename@ == "CentOS-8-GenericCloud-8.1.1911-20200113.3.x86_64.qcow2"@
    &&& d.os_variant@ == "centos8"@
    &&& d.image_url@ == "https://cloud.centos.org/centos/8/x86_64/images"@
    &&& d.login_user@ == "centos"@
    &&& d.sudo_group@ == "wheel"@
    &&& d.cloud_init_disable@ == "systemctl disable cloud-init.service"@
}

/// The fields of the built-in Ubuntu 20.04 profile.
pub open spec fn spec_is_ubuntu2004(d: DistroInfo) -> bool {
    &&& d.qcow_filename@ == "ubuntu-20.04-server-cloudimg-amd64.img"@
    &&& d.os_variant@ == "ubuntu20.04"@
    &&& d.image_url@ == "https://cloud-images.ubuntu.com/releases/20.04/release"@
    &&& d.login_user@ == "ubuntu"@
    &&& d.sudo_group@ == "sudo"@
    &&& d.cloud_init_disable@ == "systemctl disable cloud-init.service"@
}

/// The fields of the built-in Fedora 35 profile.
pub open spec fn spec_is_fedora35(d: DistroInfo) -> bool {
    &&& d.qcow_filename@ == "Fedora-Cloud-Base-35-1.2.x86_64.qcow2"@
    &&& d.os_variant@ == "fedora35"@
    &&& d.image_url@
        == "https://download.fedoraproject.org/pub/fedora/linux/releases/35/Cloud/x86_64/images"@
    &&& d.login_user@ == "fedora"@
    &&& d.sudo_group@ == "wheel"@
    &&& d.cloud_init_disable@ == "systemctl disable cloud-init.service"@
}

impl Default for Config {
    /// The built-in configuration: three common distro profiles and the
    /// default settings.
    fn default() -> (c: Config)
        ensures
            c.distros.spec_get("centos8"@) matches Some(d) && spec_is_centos8(d),
            c.distros.spec_get("ubuntu2004"@) matches Some(d) && spec_is_ubuntu2004(d),
            c.distros.spec_get("fedora35"@) matches Some(d) && spec_is_fedora35(d),
            c.defaults.memory_mb == 1024,
            c.defaults.vcpus == 1,
            c.defaults.disk_size_gb == 10,
    {
        let mut distros = DistroMap::new();
        proof {
            reveal_strlit("centos8");
            reveal_strlit("ubuntu2004");
            reveal_strlit("fedora35");
            assert("centos8"@.len() == 7);
            assert("ubuntu2004"@.len() == 10);
            assert("fedora35"@.len() == 8);
            assert("ubuntu2004"@ != "centos8"@);
            assert("fedora35"@ != "centos8"@);
            assert("fedora35"@ != "ubuntu2004"@);
        }
        distros.insert(
            String::from_str("centos8"),
            DistroInfo {
                qcow_filename: String::from_str(
                    "CentOS-8-GenericCloud-8.1.1911-20200113.3.x86_64.qcow2",
                ),
                os_variant: String::from_str("centos8"),
                image_url: String::from_str("https://cloud.centos.org/centos/8/x86_64/images"),
                login_user: String::from_str("centos"),
                sudo_group: String::from_str("wheel"),
                cloud_init_disable: String::from_str("systemctl disable cloud-init.service"),
            },
        );
        distros.insert(
            String::from_str("ubuntu2004"),
            DistroInfo {
                qcow_filename: String::from_str("ubuntu-20.04-server-cloudimg-amd64.img"),
                os_variant: String::from_str("ubuntu20.04"),
                image_url: String::from_str(
                    "https://cloud-images.ubuntu.com/releases/20.04/release",
                ),
                login_user: String::from_str("ubuntu"),
                sudo_group: String::from_str("sudo"),
                cloud_init_disable: String::from_str("systemctl disable cloud-init.service"),
            },
        );
        distros.insert(
            String::from_str("fedora35"),
            DistroInfo {
                qcow_filename: String::from_str("Fedora-Cloud-Base-35-1.2.x86_64.qcow2"),
                os_variant: String::from_str("fedora35"),
                image_url: String::from_str(
                    "https://download.fedoraproject.org/pub/fedora/linux/releases/35/Cloud/x86_64/images",
                ),
                login_user: String::from_str("fedora"),
                sudo_group: String::from_str("wheel"),
                cloud_init_disable: String::from_str("systemctl disable cloud-init.service"),
            },
        );
        Config { distros, defaults: DefaultConfig::default() }
    }
}

} // verus!
