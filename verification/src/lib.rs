//! Device SMART / health.
//!
//! Pools are backed by kernel block devices opened as `aio://` or `uring://` bdevs, including NVMe
//! used without VFIO, e.g. `uring:///dev/nvme4n1`, which always have a `/dev` node. Health for
//! such a device is obtained by invoking `smartctl --json` on that node; this single path covers
//! SAS, SATA and kernel NVMe uniformly. The library says how to invoke it ([`smartctl_args`]) and
//! turns what it has written into a [`DeviceHealth`] ([`read_device_health`]).
//!
//! VFIO/SPDK-native NVMe devices have no `/dev` node. For these the library reads the data
//! structures that the NVMe admin commands return ([`DeviceHealth::from_nvme_smart`],
//! [`identity_from_nvme_identify`]), and keeps their identities ([`NvmeIdentityCache`]).
//!
//! What the functions promise stands in their contracts; [`results`] says what a caller sees in
//! what they return, and [`laws`] what follows from them for the library as a whole.

pub mod cache;
pub mod health;
pub mod hex;
pub mod identity;
pub mod json;
pub mod laws;
pub mod number;
pub mod nvme;
pub mod report;
pub mod results;
pub mod smartctl;
pub mod text;

pub use cache::{cache_nvme_identity, cached_nvme_identity, NvmeIdentityCache};
pub use health::{DeviceHealth, SmartAttribute};
pub use identity::DeviceIdentity;
pub use nvme::identity_from_nvme_identify;
pub use report::{AtaEntry, NvmeLog, SmartctlReport};
pub use smartctl::{
    health_from_json, parse_smartctl, parse_smartctl_identity, parse_smartctl_report,
    read_device_health, smartctl_args, CoreError, Errno,
};
