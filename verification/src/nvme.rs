//! Raw NVMe data structures, as the admin commands return them.

use crate::health::{DeviceHealth, HealthModel, SmartAttribute};
use crate::identity::{DeviceIdentity, IdentityModel};
use crate::number::{low_i16, wrapped_i16};
use crate::text::{field_text, read_field};
use vstd::prelude::*;

verus! {

/// The number that `bytes` hold, least significant byte first.
pub open spec fn le_value(bytes: Seq<u8>) -> nat
    decreases bytes.len(),
{
    if bytes.len() == 0 {
        0
    } else {
        bytes[0] as nat + 256 * le_value(bytes.drop_first())
    }
}

/// The composite temperature of a SMART / Health Information log page, in kelvin.
pub open spec fn page_kelvin(page: Seq<u8>) -> nat {
    le_value(page.subrange(1, 3))
}

/// The 16-byte counter at `offset` of a SMART / Health Information log page.
pub open spec fn page_counter(page: Seq<u8>, offset: int) -> Option<u128> {
    Some(le_value(page.subrange(offset, offset + 16)) as u128)
}

/// A temperature in degrees Celsius. A device that reports none says 0 kelvin. Up to 33040 kelvin
/// this is the number of kelvin less 273; what is more does not fit and keeps its low 16 bits.
pub open spec fn celsius(kelvin: nat) -> Option<i16> {
    if kelvin == 0 {
        None
    } else {
        Some(wrapped_i16(kelvin - 273) as i16)
    }
}

/// What a SMART / Health Information log page says.
pub open spec fn smart_page(page: Seq<u8>) -> HealthModel {
    HealthModel {
        critical_warning: page[0],
        temperature_celsius: celsius(page_kelvin(page)),
        available_spare_percent: Some(page[3]),
        available_spare_threshold_percent: Some(page[4]),
        percentage_used: Some(page[5]),
        data_units_read: page_counter(page, 32),
        data_units_written: page_counter(page, 48),
        host_reads: page_counter(page, 64),
        host_writes: page_counter(page, 80),
        controller_busy_minutes: page_counter(page, 96),
        power_cycles: page_counter(page, 112),
        power_on_hours: page_counter(page, 128),
        unsafe_shutdowns: page_counter(page, 144),
        media_errors: page_counter(page, 160),
        num_error_log_entries: page_counter(page, 176),
        identity: None,
        smart_attributes: Seq::empty(),
    }
}

/// What an Identify Controller data structure says.
pub open spec fn identify_data(data: Seq<u8>) -> IdentityModel {
    IdentityModel {
        serial_number: field_text(data.subrange(4, 24)),
        model: field_text(data.subrange(24, 64)),
        firmware_revision: field_text(data.subrange(64, 72)),
        rotation_rate: Some(0),
        transport: Some("PCIe"@),
        ..IdentityModel::unset()
    }
}

/// 256 to the power of `n`.
spec fn places(n: nat) -> nat
    decreases n,
{
    if n == 0 {
        1
    } else {
        256 * places((n - 1) as nat)
    }
}

proof fn lemma_places_grow(n: nat, m: nat)
    requires
        n <= m,
    ensures
        1 <= places(n) <= places(m),
    decreases m,
{
    if n < m {
        lemma_places_grow(n, (m - 1) as nat);
    } else if m > 0 {
        lemma_places_grow((m - 1) as nat, (m - 1) as nat);
    }
}

proof fn lemma_le_value_bound(bytes: Seq<u8>)
    ensures
        le_value(bytes) < places(bytes.len()),
    decreases bytes.len(),
{
    if bytes.len() > 0 {
        lemma_le_value_bound(bytes.drop_first());
    }
}

/// At most 16 bytes hold less than 2^128.
pub(crate) proof fn lemma_le_value_fits(bytes: Seq<u8>)
    requires
        bytes.len() <= 16,
    ensures
        le_value(bytes) <= u128::MAX,
        bytes.len() <= 2 ==> le_value(bytes) <= u16::MAX,
{
    lemma_le_value_bound(bytes);
    lemma_places_grow(bytes.len(), 16);
    reveal_with_fuel(places, 17);
    if bytes.len() <= 2 {
        lemma_places_grow(bytes.len(), 2);
    }
}

/// The number in `len` bytes from `start` on, least significant byte first.
fn read_le(page: &[u8], start: usize, len: usize) -> (r: u128)
    requires
        len <= 16,
        start + len <= page@.len(),
    ensures
        r == le_value(page@.subrange(start as int, start + len)),
{
    let mut value: u128 = 0;
    let end: usize = page.len();
    let mut i: usize = len;
    assert(page@.subrange(start + len, start + len) =~= Seq::empty());
    while i > 0
        invariant
            i <= len <= 16,
            start + len <= end == page@.len(),
            value == le_value(page@.subrange(start + i, start + len)),
        decreases i,
    {
        i = i - 1;
        let byte: u8 = page[start + i];
        proof {
            let next = page@.subrange(start + i, start + len);
            assert(next.drop_first() =~= page@.subrange(start + i + 1, start + len));
            lemma_le_value_fits(next);
        }
        value = value * 256 + byte as u128;
    }
    value
}

/// The composite temperature of a log page in kelvin.
fn read_kelvin(page: &[u8]) -> (r: u16)
    requires
        page@.len() >= 512,
    ensures
        r == page_kelvin(page@),
{
    proof {
        lemma_le_value_fits(page@.subrange(1, 3));
    }
    read_le(page, 1, 2) as u16
}

impl DeviceHealth {
    /// Parse a 512-byte NVMe SMART / Health Information log page (LID 02h), as returned by a Get
    /// Log Page admin command. Used for VFIO-bound NVMe, which has no `/dev` node for smartctl.
    /// Returns `None` if too short.
    ///
    /// Identity comes from a separate Identify Controller admin command; the caller fills it in
    /// from its own cache, keyed by device name, since it never changes.
    pub fn from_nvme_smart(page: &[u8]) -> (r: Option<Self>)
        ensures
            r is Some <==> page@.len() >= 512,
            r matches Some(health) ==> health@ == smart_page(page@),
    {
        if page.len() < 512 {
            return None;
        }
        let temp_k: u16 = read_kelvin(page);
        let temperature_celsius: Option<i16> = if temp_k == 0 {
            None
        } else {
            Some(low_i16(temp_k as i64 - 273))
        };
        let smart_attributes: Vec<SmartAttribute> = Vec::new();
        let health = DeviceHealth {
            critical_warning: page[0],
            temperature_celsius,
            available_spare_percent: Some(page[3]),
            available_spare_threshold_percent: Some(page[4]),
            percentage_used: Some(page[5]),
            data_units_read: Some(read_le(page, 32, 16)),
            data_units_written: Some(read_le(page, 48, 16)),
            host_reads: Some(read_le(page, 64, 16)),
            host_writes: Some(read_le(page, 80, 16)),
            controller_busy_minutes: Some(read_le(page, 96, 16)),
            power_cycles: Some(read_le(page, 112, 16)),
            power_on_hours: Some(read_le(page, 128, 16)),
            unsafe_shutdowns: Some(read_le(page, 144, 16)),
            media_errors: Some(read_le(page, 160, 16)),
            num_error_log_entries: Some(read_le(page, 176, 16)),
            identity: None,
            smart_attributes,
        };
        assert(health@.smart_attributes =~= Seq::empty());
        Some(health)
    }
}

/// Parse a 4096-byte NVMe Identify Controller data structure (as returned by an Identify admin
/// command with CNS=1) into [`DeviceIdentity`]. Used for VFIO-bound NVMe, which has no
/// Identify-derived info surfaced any other way. Layout is fixed for all NVMe devices: SN at byte
/// offset 4 (20 bytes), MN at offset 24 (40 bytes), FR at offset 64 (8 bytes), all ASCII
/// space-padded. Returns `None` if the buffer is too short.
pub fn identity_from_nvme_identify(data: &[u8]) -> (r: Option<DeviceIdentity>)
    ensures
        r is Some <==> data@.len() >= 72,
        r matches Some(identity) ==> identity@ == identify_data(data@),
{
    if data.len() < 72 {
        return None;
    }
    Some(
        DeviceIdentity {
            model: read_field(&data[24..64]),
            model_family: None,
            serial_number: read_field(&data[4..24]),
            firmware_revision: read_field(&data[64..72]),
            wwn: None,
            capacity_bytes: None,
            logical_sector_size: None,
            physical_sector_size: None,
            rotation_rate: Some(0),  // NVMe is always non-rotating media.
            form_factor: None,
            transport: Some("PCIe".to_string()),
            link_speed: None,
        },
    )
}

} // verus!
