//! How a device fares.

use crate::identity::{DeviceIdentity, IdentityModel};
use vstd::prelude::*;

verus! {

/// A single SMART attribute table entry (ATA devices only -- SAS/NVMe report an empty list here
/// since their equivalent thresholds are already first-class fields on [`DeviceHealth`]).
#[derive(Debug)]
pub struct SmartAttribute {
    pub id: u8,
    pub name: String,
    pub value: u8,
    pub worst: u8,
    pub threshold: u8,
    pub raw_value: u64,
}

/// A [`SmartAttribute`] with its name as a sequence of characters.
#[verifier::ext_equal]
pub struct AttributeModel {
    pub id: u8,
    pub name: Seq<char>,
    pub value: u8,
    pub worst: u8,
    pub threshold: u8,
    pub raw_value: u64,
}

impl View for SmartAttribute {
    type V = AttributeModel;

    open spec fn view(&self) -> AttributeModel {
        AttributeModel {
            id: self.id,
            name: self.name@,
            value: self.value,
            worst: self.worst,
            threshold: self.threshold,
            raw_value: self.raw_value,
        }
    }
}

impl Clone for SmartAttribute {
    fn clone(&self) -> (r: Self)
        ensures
            r == *self,
    {
        SmartAttribute {
            id: self.id,
            name: self.name.clone(),
            value: self.value,
            worst: self.worst,
            threshold: self.threshold,
            raw_value: self.raw_value,
        }
    }
}

/// Normalised device SMART / health information. `Option` fields are unset when a given device or
/// transport does not report them.
#[derive(Debug)]
pub struct DeviceHealth {
    /// Raw NVMe critical-warning bit flags (0 == no critical condition). For SAS/SATA a failed
    /// overall SMART status is mapped onto bit 0x04.
    pub critical_warning: u8,
    /// Temperature in degrees Celsius.
    pub temperature_celsius: Option<i16>,
    /// Remaining spare capacity, percent.
    pub available_spare_percent: Option<u8>,
    /// Spare threshold below which the device warns, percent.
    pub available_spare_threshold_percent: Option<u8>,
    /// Estimated device life used, percent (may exceed 100).
    pub percentage_used: Option<u8>,
    pub data_units_read: Option<u128>,
    pub data_units_written: Option<u128>,
    /// Number of host read commands completed.
    pub host_reads: Option<u128>,
    /// Number of host write commands completed.
    pub host_writes: Option<u128>,
    /// Time the controller was busy with I/O, in minutes.
    pub controller_busy_minutes: Option<u128>,
    pub power_cycles: Option<u128>,
    pub power_on_hours: Option<u128>,
    pub unsafe_shutdowns: Option<u128>,
    /// Media / data-integrity (uncorrectable) error count.
    pub media_errors: Option<u128>,
    /// Number of entries in the error-information log.
    pub num_error_log_entries: Option<u128>,
    /// Static device identity/inventory data, see [`DeviceIdentity`].
    pub identity: Option<DeviceIdentity>,
    /// SMART attribute table (ATA only; empty for SAS/NVMe).
    pub smart_attributes: Vec<SmartAttribute>,
}

/// A [`DeviceHealth`] with its identity and its attribute table as their models.
#[verifier::ext_equal]
pub struct HealthModel {
    pub critical_warning: u8,
    pub temperature_celsius: Option<i16>,
    pub available_spare_percent: Option<u8>,
    pub available_spare_threshold_percent: Option<u8>,
    pub percentage_used: Option<u8>,
    pub data_units_read: Option<u128>,
    pub data_units_written: Option<u128>,
    pub host_reads: Option<u128>,
    pub host_writes: Option<u128>,
    pub controller_busy_minutes: Option<u128>,
    pub power_cycles: Option<u128>,
    pub power_on_hours: Option<u128>,
    pub unsafe_shutdowns: Option<u128>,
    pub media_errors: Option<u128>,
    pub num_error_log_entries: Option<u128>,
    pub identity: Option<IdentityModel>,
    pub smart_attributes: Seq<AttributeModel>,
}

impl View for DeviceHealth {
    type V = HealthModel;

    open spec fn view(&self) -> HealthModel {
        HealthModel {
            critical_warning: self.critical_warning,
            temperature_celsius: self.temperature_celsius,
            available_spare_percent: self.available_spare_percent,
            available_spare_threshold_percent: self.available_spare_threshold_percent,
            percentage_used: self.percentage_used,
            data_units_read: self.data_units_read,
            data_units_written: self.data_units_written,
            host_reads: self.host_reads,
            host_writes: self.host_writes,
            controller_busy_minutes: self.controller_busy_minutes,
            power_cycles: self.power_cycles,
            power_on_hours: self.power_on_hours,
            unsafe_shutdowns: self.unsafe_shutdowns,
            media_errors: self.media_errors,
            num_error_log_entries: self.num_error_log_entries,
            identity: match self.identity {
                Some(identity) => Some(identity@),
                None => None,
            },
            smart_attributes: self.smart_attributes@.map_values(|a: SmartAttribute| a@),
        }
    }
}

/// Whether the bit worth `place` is set in a critical-warning byte.
pub open spec fn flag(critical_warning: u8, place: u8) -> bool {
    critical_warning / place % 2 == 1
}

impl HealthModel {
    /// Nothing is known of the device, and nothing is wrong with it.
    pub open spec fn unset() -> HealthModel {
        HealthModel {
            critical_warning: 0,
            temperature_celsius: None,
            available_spare_percent: None,
            available_spare_threshold_percent: None,
            percentage_used: None,
            data_units_read: None,
            data_units_written: None,
            host_reads: None,
            host_writes: None,
            controller_busy_minutes: None,
            power_cycles: None,
            power_on_hours: None,
            unsafe_shutdowns: None,
            media_errors: None,
            num_error_log_entries: None,
            identity: None,
            smart_attributes: Seq::empty(),
        }
    }

    /// No critical-warning bit is set.
    pub open spec fn healthy(self) -> bool {
        self.critical_warning == 0
    }

    /// The critical-warning bit for a spare capacity below its threshold.
    pub open spec fn spare_low(self) -> bool {
        flag(self.critical_warning, 0x01)
    }

    /// The critical-warning bit for the temperature.
    pub open spec fn too_hot(self) -> bool {
        flag(self.critical_warning, 0x02)
    }

    /// The critical-warning bit for degraded reliability.
    pub open spec fn degraded(self) -> bool {
        flag(self.critical_warning, 0x04)
    }

    /// The critical-warning bit for media that cannot be written any more.
    pub open spec fn read_only(self) -> bool {
        flag(self.critical_warning, 0x08)
    }

    /// The critical-warning bit for a failed backup of volatile memory.
    pub open spec fn backup_failed(self) -> bool {
        flag(self.critical_warning, 0x10)
    }
}

impl Default for DeviceHealth {
    /// Health of which nothing is set.
    fn default() -> (r: Self)
        ensures
            r@ == HealthModel::unset(),
    {
        let r = DeviceHealth {
            critical_warning: 0,
            temperature_celsius: None,
            available_spare_percent: None,
            available_spare_threshold_percent: None,
            percentage_used: None,
            data_units_read: None,
            data_units_written: None,
            host_reads: None,
            host_writes: None,
            controller_busy_minutes: None,
            power_cycles: None,
            power_on_hours: None,
            unsafe_shutdowns: None,
            media_errors: None,
            num_error_log_entries: None,
            identity: None,
            smart_attributes: Vec::new(),
        };
        assert(r@.smart_attributes =~= Seq::empty());
        r
    }
}

impl Clone for DeviceHealth {
    fn clone(&self) -> (r: Self)
        ensures
            r@ == self@,
    {
        let r = DeviceHealth {
            critical_warning: self.critical_warning,
            temperature_celsius: self.temperature_celsius,
            available_spare_percent: self.available_spare_percent,
            available_spare_threshold_percent: self.available_spare_threshold_percent,
            percentage_used: self.percentage_used,
            data_units_read: self.data_units_read,
            data_units_written: self.data_units_written,
            host_reads: self.host_reads,
            host_writes: self.host_writes,
            controller_busy_minutes: self.controller_busy_minutes,
            power_cycles: self.power_cycles,
            power_on_hours: self.power_on_hours,
            unsafe_shutdowns: self.unsafe_shutdowns,
            media_errors: self.media_errors,
            num_error_log_entries: self.num_error_log_entries,
            identity: self.identity.clone(),
            smart_attributes: self.smart_attributes.clone(),
        };
        assert(r@.smart_attributes =~= self@.smart_attributes);
        r
    }
}

impl DeviceHealth {
    /// True when no critical-warning bit is set.
    pub fn is_healthy(&self) -> (r: bool)
        ensures
            r == self@.healthy(),
    {
        self.critical_warning == 0
    }

    /// Whether the spare capacity is below its threshold.
    pub fn spare_below_threshold(&self) -> (r: bool)
        ensures
            r == self@.spare_low(),
    {
        let warning: u8 = self.critical_warning;
        assert((warning & 0x01 != 0) == (warning / 0x01 % 2 == 1)) by (bit_vector);
        warning & 0x01 != 0
    }

    /// Whether the temperature is outside its limits.
    pub fn temperature_critical(&self) -> (r: bool)
        ensures
            r == self@.too_hot(),
    {
        let warning: u8 = self.critical_warning;
        assert((warning & 0x02 != 0) == (warning / 0x02 % 2 == 1)) by (bit_vector);
        warning & 0x02 != 0
    }

    /// Whether the device has become unreliable.
    pub fn reliability_degraded(&self) -> (r: bool)
        ensures
            r == self@.degraded(),
    {
        let warning: u8 = self.critical_warning;
        assert((warning & 0x04 != 0) == (warning / 0x04 % 2 == 1)) by (bit_vector);
        warning & 0x04 != 0
    }

    /// Whether the media can only be read.
    pub fn media_read_only(&self) -> (r: bool)
        ensures
            r == self@.read_only(),
    {
        let warning: u8 = self.critical_warning;
        assert((warning & 0x08 != 0) == (warning / 0x08 % 2 == 1)) by (bit_vector);
        warning & 0x08 != 0
    }

    /// Whether the backup of volatile memory has failed.
    pub fn volatile_backup_failed(&self) -> (r: bool)
        ensures
            r == self@.backup_failed(),
    {
        let warning: u8 = self.critical_warning;
        assert((warning & 0x10 != 0) == (warning / 0x10 % 2 == 1)) by (bit_vector);
        warning & 0x10 != 0
    }
}

} // verus!
