//! Provisioning and teardown pipeline for local virtual machines.
//!
//! The library holds the logic of the pipeline: locating and resumably
//! acquiring base disk images, composing copy-on-write overlay disks,
//! rendering and packaging first-boot seed data, and the domain
//! create/destroy state machines with their partial-failure cleanup.
//! Every outside effect (network transfer, disk tooling, the hypervisor
//! control plane) is driven by a caller that executes the actions these
//! state machines hand out and reports their outcomes back.

pub mod cli;
pub mod cloudinit;
pub mod config;
pub mod disk;
pub mod domain;
pub mod error;
pub mod image;
pub mod inventory;
pub mod strutil;
pub mod vm;

pub use cli::Cli;
pub use cli::Commands;
pub use config::Config;
pub use domain::DomainInfo;
pub use domain::DomainState;
pub use error::VmError;
pub use image::ImageManager;
pub use vm::DistroInfo;
pub use vm::VirtualMachine;
