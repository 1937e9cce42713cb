//! What a device is, as opposed to how it fares.

use vstd::prelude::*;

verus! {

/// Static device identity/inventory data. Unlike the counters of
/// [`DeviceHealth`](crate::health::DeviceHealth), this never changes for the device's lifetime,
/// so callers should fetch it once and cache it (see
/// [`cached_nvme_identity`](crate::cache::cached_nvme_identity) for VFIO-bound NVMe) rather than
/// re-reading it on every health poll. `Option` fields are unset when a given device or transport
/// does not report them.
#[derive(Debug)]
pub struct DeviceIdentity {
    pub model: Option<String>,
    pub model_family: Option<String>,
    pub serial_number: Option<String>,
    pub firmware_revision: Option<String>,
    pub wwn: Option<String>,
    pub capacity_bytes: Option<u64>,
    pub logical_sector_size: Option<u32>,
    pub physical_sector_size: Option<u32>,
    /// RPM, or `Some(0)` for non-rotating media (SSD/NVMe).
    pub rotation_rate: Option<u32>,
    pub form_factor: Option<String>,
    pub transport: Option<String>,
    pub link_speed: Option<String>,
}

/// A [`DeviceIdentity`] with its strings as sequences of characters.
#[verifier::ext_equal]
pub struct IdentityModel {
    pub model: Option<Seq<char>>,
    pub model_family: Option<Seq<char>>,
    pub serial_number: Option<Seq<char>>,
    pub firmware_revision: Option<Seq<char>>,
    pub wwn: Option<Seq<char>>,
    pub capacity_bytes: Option<u64>,
    pub logical_sector_size: Option<u32>,
    pub physical_sector_size: Option<u32>,
    pub rotation_rate: Option<u32>,
    pub form_factor: Option<Seq<char>>,
    pub transport: Option<Seq<char>>,
    pub link_speed: Option<Seq<char>>,
}

impl View for DeviceIdentity {
    type V = IdentityModel;

    open spec fn view(&self) -> IdentityModel {
        IdentityModel {
            model: self.model.deep_view(),
            model_family: self.model_family.deep_view(),
            serial_number: self.serial_number.deep_view(),
            firmware_revision: self.firmware_revision.deep_view(),
            wwn: self.wwn.deep_view(),
            capacity_bytes: self.capacity_bytes,
            logical_sector_size: self.logical_sector_size,
            physical_sector_size: self.physical_sector_size,
            rotation_rate: self.rotation_rate,
            form_factor: self.form_factor.deep_view(),
            transport: self.transport.deep_view(),
            link_speed: self.link_speed.deep_view(),
        }
    }
}

impl IdentityModel {
    /// Nothing is known of the device.
    pub open spec fn unset() -> IdentityModel {
        IdentityModel {
            model: None,
            model_family: None,
            serial_number: None,
            firmware_revision: None,
            wwn: None,
            capacity_bytes: None,
            logical_sector_size: None,
            physical_sector_size: None,
            rotation_rate: None,
            form_factor: None,
            transport: None,
            link_speed: None,
        }
    }
}

impl Default for DeviceIdentity {
    /// An identity of which nothing is set.
    fn default() -> (r: Self)
        ensures
            r@ == IdentityModel::unset(),
    {
        DeviceIdentity {
            model: None,
            model_family: None,
            serial_number: None,
            firmware_revision: None,
            wwn: None,
            capacity_bytes: None,
            logical_sector_size: None,
            physical_sector_size: None,
            rotation_rate: None,
            form_factor: None,
            transport: None,
            link_speed: None,
        }
    }
}

impl Clone for DeviceIdentity {
    fn clone(&self) -> (r: Self)
        ensures
            r == *self,
    {
        DeviceIdentity {
            model: self.model.clone(),
            model_family: self.model_family.clone(),
            serial_number: self.serial_number.clone(),
            firmware_revision: self.firmware_revision.clone(),
            wwn: self.wwn.clone(),
            capacity_bytes: self.capacity_bytes,
            logical_sector_size: self.logical_sector_size,
            physical_sector_size: self.physical_sector_size,
            rotation_rate: self.rotation_rate,
            form_factor: self.form_factor.clone(),
            transport: self.transport.clone(),
            link_speed: self.link_speed.clone(),
        }
    }
}

} // verus!
