//! The command surface of the tool, as plain data.
//!
//! Argument parsing itself is thin surrounding glue and stays outside
//! the library; these are the values it hands in.

use vstd::prelude::*;

verus! {

/// One invocation of the tool.
#[derive(Debug)]
pub struct Cli {
    pub verbose: bool,
    pub command: Commands,
}

/// The commands the tool accepts.
#[derive(Debug)]
pub enum Commands {
    Create {
        name: String,
        distro: String,
        vcpus: u32,
        memory_mb: u32,
        disk_size_gb: u32,
        graphics: bool,
        dry_run: bool,
    },
    Destroy { name: String, remove_disk: bool },
    List { all: bool, running: bool, inactive: bool },
}

/// Whether a listing shows everything: asked for explicitly, or the
/// default when no filter flag is given.
pub fn list_shows_all(all: bool, running: bool, inactive: bool) -> (r: bool)
    ensures
        r == (all || (!running && !inactive)),
{
    all || (!running && !inactive)
}

} // verus!
