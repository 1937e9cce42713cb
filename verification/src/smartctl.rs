//! From what smartctl reports to [`DeviceHealth`].

use crate::health::{flag, AttributeModel, DeviceHealth, HealthModel, SmartAttribute};
use crate::hex::{format_wwn, wwn_text};
use crate::identity::{DeviceIdentity, IdentityModel};
use crate::json::{get_member, json_of, parse_json, parsed, Json};
use crate::number::{low_i16, low_u32, low_u8, wrapped_i16};
use crate::report::{report_of, AtaEntry, EntryModel, NvmeLog, ReportModel, SmartctlReport};
use serde_json::Value;
use vstd::prelude::*;

verus! {

/// The first of two readings that is set.
pub open spec fn first_set<T>(a: Option<T>, b: Option<T>) -> Option<T> {
    if a is Some {
        a
    } else {
        b
    }
}

/// The low 8 bits of a reading.
pub open spec fn as_percent(v: Option<u64>) -> Option<u8> {
    match v {
        Some(n) => Some((n % 0x100) as u8),
        None => None,
    }
}

/// The low 32 bits of a reading.
pub open spec fn as_u32(v: Option<u64>) -> Option<u32> {
    match v {
        Some(n) => Some((n % 0x1_0000_0000) as u32),
        None => None,
    }
}

/// A reading as a counter of full width.
pub open spec fn as_counter(v: Option<u64>) -> Option<u128> {
    match v {
        Some(n) => Some(n as u128),
        None => None,
    }
}

/// A reading in degrees Celsius, its low 16 bits taken for a signed number.
pub open spec fn as_celsius(v: Option<i64>) -> Option<i16> {
    match v {
        Some(n) => Some(wrapped_i16(n as int) as i16),
        None => None,
    }
}

/// The temperature in the low byte of a raw attribute value.
pub open spec fn raw_celsius(v: Option<u64>) -> Option<i16> {
    match v {
        Some(n) => Some((n % 0x100) as i16),
        None => None,
    }
}

/// A number that is 0 where it is not reported.
pub open spec fn or_zero(v: Option<u64>) -> u64 {
    match v {
        Some(n) => n,
        None => 0,
    }
}

/// The raw value of an entry, if the entry has one of the two attribute ids.
pub open spec fn raw_of(entry: EntryModel, id: u64, other_id: u64) -> Option<u64> {
    if or_zero(entry.id) == id || or_zero(entry.id) == other_id {
        entry.raw
    } else {
        None
    }
}

/// The first raw value in the table under one of two attribute ids.
pub open spec fn first_raw(table: Seq<EntryModel>, id: u64, other_id: u64) -> Option<u64>
    decreases table.len(),
{
    if table.len() == 0 {
        None
    } else {
        first_set(first_raw(table.drop_last(), id, other_id), raw_of(table.last(), id, other_id))
    }
}

/// The last raw value in the table under one of two attribute ids.
pub open spec fn last_raw(table: Seq<EntryModel>, id: u64, other_id: u64) -> Option<u64>
    decreases table.len(),
{
    if table.len() == 0 {
        None
    } else {
        first_set(raw_of(table.last(), id, other_id), last_raw(table.drop_last(), id, other_id))
    }
}

/// The attribute that a table entry stands for.
pub open spec fn attribute_of(entry: EntryModel) -> AttributeModel {
    AttributeModel {
        id: (or_zero(entry.id) % 0x100) as u8,
        name: match entry.name {
            Some(name) => name,
            None => Seq::empty(),
        },
        value: (or_zero(entry.value) % 0x100) as u8,
        worst: (or_zero(entry.worst) % 0x100) as u8,
        threshold: (or_zero(entry.thresh) % 0x100) as u8,
        raw_value: or_zero(entry.raw),
    }
}

/// The critical-warning byte: that of the NVMe log, with the reliability bit set in any case where
/// the device has failed its own assessment.
pub open spec fn warning_of(report: ReportModel) -> u8 {
    let logged = (or_zero(report.nvme.critical_warning) % 0x100) as u8;
    if report.passed == Some(false) && !flag(logged, 0x04) {
        (logged + 0x04) as u8
    } else {
        logged
    }
}

/// The identity in a report.
pub open spec fn identity_of(report: ReportModel) -> IdentityModel {
    IdentityModel {
        model: report.model_name,
        model_family: report.model_family,
        serial_number: report.serial_number,
        firmware_revision: report.firmware_version,
        wwn: match (report.wwn_naa, report.wwn_oui, report.wwn_id) {
            (Some(naa), Some(oui), Some(id)) => Some(wwn_text(naa, oui, id)),
            _ => None,
        },
        capacity_bytes: report.capacity_bytes,
        logical_sector_size: as_u32(report.logical_block_size),
        physical_sector_size: as_u32(report.physical_block_size),
        rotation_rate: as_u32(report.rotation_rate),
        form_factor: report.form_factor,
        transport: report.protocol,
        link_speed: report.link_speed,
    }
}

/// The health in a report.
///
/// Readings of the NVMe log come before those at the top level of the report. Of the vendor
/// attribute table, ids 9 (power-on hours), 12 (power cycles), 190 and 194 (temperature) fill in
/// what neither of these has, by the first entry that holds a raw value. Ids 5 (reallocated
/// sectors), 187 and 198 (uncorrectable errors) come before everything else, by the last entry
/// that holds a raw value. The grown defect list counts where nothing else tells of media errors.
pub open spec fn health_of(report: ReportModel) -> HealthModel {
    let log = report.nvme;
    let table = report.ata_table;
    HealthModel {
        critical_warning: warning_of(report),
        temperature_celsius: first_set(
            as_celsius(first_set(log.temperature, report.temperature)),
            raw_celsius(first_raw(table, 190, 194)),
        ),
        available_spare_percent: as_percent(log.available_spare),
        available_spare_threshold_percent: as_percent(log.available_spare_threshold),
        percentage_used: as_percent(log.percentage_used),
        data_units_read: as_counter(log.data_units_read),
        data_units_written: as_counter(log.data_units_written),
        host_reads: as_counter(log.host_reads),
        host_writes: as_counter(log.host_writes),
        controller_busy_minutes: as_counter(log.controller_busy_time),
        power_cycles: as_counter(
            first_set(
                first_set(log.power_cycles, report.power_cycle_count),
                first_raw(table, 12, 12),
            ),
        ),
        power_on_hours: as_counter(
            first_set(first_set(log.power_on_hours, report.power_on_hours), first_raw(table, 9, 9)),
        ),
        unsafe_shutdowns: as_counter(log.unsafe_shutdowns),
        media_errors: as_counter(
            first_set(first_set(last_raw(table, 5, 5), log.media_errors), report.grown_defects),
        ),
        num_error_log_entries: as_counter(
            first_set(last_raw(table, 187, 198), log.num_err_log_entries),
        ),
        identity: Some(identity_of(report)),
        smart_attributes: table.map_values(|e: EntryModel| attribute_of(e)),
    }
}

/// Extract device identity/inventory data (model, serial, capacity, ...) from a smartctl report.
/// Available uniformly across NVMe, SATA and SAS -- smartctl normalises this regardless of
/// transport, unlike the health counters.
pub fn parse_smartctl_identity(report: &SmartctlReport) -> (r: DeviceIdentity)
    ensures
        r@ == identity_of(report@),
{
    let wwn: Option<String> = match (report.wwn_naa, report.wwn_oui, report.wwn_id) {
        (Some(naa), Some(oui), Some(id)) => Some(format_wwn(naa, oui, id)),
        _ => None,
    };
    DeviceIdentity {
        model: report.model_name.clone(),
        model_family: report.model_family.clone(),
        serial_number: report.serial_number.clone(),
        firmware_revision: report.firmware_version.clone(),
        wwn,
        capacity_bytes: report.capacity_bytes,
        logical_sector_size: narrow_u32(report.logical_block_size),
        physical_sector_size: narrow_u32(report.physical_block_size),
        rotation_rate: narrow_u32(report.rotation_rate),
        form_factor: report.form_factor.clone(),
        transport: report.protocol.clone(),
        link_speed: report.link_speed.clone(),
    }
}

fn narrow_u32(v: Option<u64>) -> (r: Option<u32>)
    ensures
        r == as_u32(v),
{
    match v {
        Some(n) => Some(low_u32(n)),
        None => None,
    }
}

fn narrow_u8(v: Option<u64>) -> (r: Option<u8>)
    ensures
        r == as_percent(v),
{
    match v {
        Some(n) => Some(low_u8(n)),
        None => None,
    }
}

fn widen(v: Option<u64>) -> (r: Option<u128>)
    ensures
        r == as_counter(v),
{
    match v {
        Some(n) => Some(n as u128),
        None => None,
    }
}

fn narrow_celsius(v: Option<i64>) -> (r: Option<i16>)
    ensures
        r == as_celsius(v),
{
    match v {
        Some(n) => Some(low_i16(n)),
        None => None,
    }
}

fn prefer<T: Copy>(a: Option<T>, b: Option<T>) -> (r: Option<T>)
    ensures
        r == first_set(a, b),
{
    match a {
        Some(_) => a,
        None => b,
    }
}

/// The critical-warning byte of a report.
fn read_warning(report: &SmartctlReport) -> (r: u8)
    ensures
        r == warning_of(report@),
{
    let mut warning: u8 = 0;
    // Overall pass/fail (present for SATA and SAS). A failed status maps onto the
    // reliability-degraded flag for a uniform `is_healthy()`.
    if let Some(false) = report.passed {
        assert(0u8 | 0x04 == 4u8) by (bit_vector);
        warning = warning | 0x04;
    }
    let logged: u8 = match report.nvme.critical_warning {
        Some(v) => low_u8(v),
        None => 0,
    };
    assert(0u8 | logged == logged) by (bit_vector);
    assert(4u8 | logged == if logged / 4 % 2 == 1 {
        logged as int
    } else {
        logged + 4
    }) by (bit_vector);
    warning | logged
}

/// The attribute that a table entry stands for.
fn read_attribute(entry: &AtaEntry) -> (r: SmartAttribute)
    ensures
        r@ == attribute_of(entry@),
{
    SmartAttribute {
        id: low_u8(entry.id.unwrap_or(0)),
        name: match &entry.name {
            Some(name) => name.clone(),
            None => String::new(),
        },
        value: low_u8(entry.value.unwrap_or(0)),
        worst: low_u8(entry.worst.unwrap_or(0)),
        threshold: low_u8(entry.thresh.unwrap_or(0)),
        raw_value: entry.raw.unwrap_or(0),
    }
}

/// What is gathered from the vendor attribute table.
struct TableReadings {
    media_errors: Option<u64>,
    power_on_hours: Option<u64>,
    power_cycles: Option<u64>,
    temperature: Option<u64>,
    num_errors: Option<u64>,
    attributes: Vec<SmartAttribute>,
}

/// Walks the vendor attribute table.
fn read_table(table: &Vec<AtaEntry>) -> (r: TableReadings)
    ensures
        ({
            let entries = table@.map_values(|e: AtaEntry| e@);
            &&& r.media_errors == last_raw(entries, 5, 5)
            &&& r.power_on_hours == first_raw(entries, 9, 9)
            &&& r.power_cycles == first_raw(entries, 12, 12)
            &&& r.temperature == first_raw(entries, 190, 194)
            &&& r.num_errors == last_raw(entries, 187, 198)
            &&& r.attributes@.map_values(|a: SmartAttribute| a@) == entries.map_values(
                |e: EntryModel| attribute_of(e),
            )
        }),
{
    let ghost entries = table@.map_values(|e: AtaEntry| e@);
    let mut media_errors: Option<u64> = None;
    let mut power_on_hours: Option<u64> = None;
    let mut power_cycles: Option<u64> = None;
    let mut temperature: Option<u64> = None;
    let mut num_errors: Option<u64> = None;
    let mut attributes: Vec<SmartAttribute> = Vec::new();
    let mut i: usize = 0;
    assert(entries.take(0) =~= Seq::empty());
    while i < table.len()
        invariant
            i <= table@.len(),
            entries == table@.map_values(|e: AtaEntry| e@),
            media_errors == last_raw(entries.take(i as int), 5, 5),
            power_on_hours == first_raw(entries.take(i as int), 9, 9),
            power_cycles == first_raw(entries.take(i as int), 12, 12),
            temperature == first_raw(entries.take(i as int), 190, 194),
            num_errors == last_raw(entries.take(i as int), 187, 198),
            attributes@.len() == i,
            forall|k: int| 0 <= k < i ==> (#[trigger] attributes@[k])@ == attribute_of(entries[k]),
        decreases table@.len() - i,
    {
        let entry: &AtaEntry = &table[i];
        let id: u64 = entry.id.unwrap_or(0);
        let raw: Option<u64> = entry.raw;
        proof {
            let prefix = entries.take(i + 1);
            assert(prefix.drop_last() =~= entries.take(i as int));
            assert(prefix.last() == entry@);
        }
        attributes.push(read_attribute(entry));
        match id {
            5 => {
                // Reallocated sectors.
                media_errors = prefer(raw, media_errors);
            },
            9 => {
                power_on_hours = prefer(power_on_hours, raw);
            },
            12 => {
                power_cycles = prefer(power_cycles, raw);
            },
            190 | 194 => {
                temperature = prefer(temperature, raw);
            },
            187 | 198 => {
                num_errors = prefer(raw, num_errors);
            },
            _ => {},
        }
        i = i + 1;
    }
    assert(entries.take(i as int) =~= entries);
    assert(attributes@.map_values(|a: SmartAttribute| a@) =~= entries.map_values(
        |e: EntryModel| attribute_of(e),
    ));
    TableReadings {
        media_errors,
        power_on_hours,
        power_cycles,
        temperature,
        num_errors,
        attributes,
    }
}

/// Map a smartctl report (NVMe / SATA / SAS) into [`DeviceHealth`].
pub fn parse_smartctl_report(report: &SmartctlReport) -> (r: DeviceHealth)
    ensures
        r@ == health_of(report@),
{
    // Kernel NVMe: the SMART/health log is reported directly by smartctl. This is the primary NVMe
    // path (NVMe attached via uring/aio, not VFIO).
    let log: &NvmeLog = &report.nvme;
    // SATA: vendor attribute table.
    let table: TableReadings = read_table(&report.ata_table);
    let table_temperature: Option<i16> = match table.temperature {
        Some(v) => {
            assert(v & 0xff == v % 0x100) by (bit_vector);
            Some((v & 0xff) as i16)
        },
        None => None,
    };
    DeviceHealth {
        critical_warning: read_warning(report),
        temperature_celsius: prefer(
            narrow_celsius(prefer(log.temperature, report.temperature)),
            table_temperature,
        ),
        available_spare_percent: narrow_u8(log.available_spare),
        available_spare_threshold_percent: narrow_u8(log.available_spare_threshold),
        percentage_used: narrow_u8(log.percentage_used),
        data_units_read: widen(log.data_units_read),
        data_units_written: widen(log.data_units_written),
        host_reads: widen(log.host_reads),
        host_writes: widen(log.host_writes),
        controller_busy_minutes: widen(log.controller_busy_time),
        power_cycles: widen(
            prefer(prefer(log.power_cycles, report.power_cycle_count), table.power_cycles),
        ),
        power_on_hours: widen(
            prefer(prefer(log.power_on_hours, report.power_on_hours), table.power_on_hours),
        ),
        unsafe_shutdowns: widen(log.unsafe_shutdowns),
        // SAS: grown defect list as a media-error signal when nothing else set it.
        media_errors: widen(
            prefer(prefer(table.media_errors, log.media_errors), report.grown_defects),
        ),
        num_error_log_entries: widen(prefer(table.num_errors, log.num_err_log_entries)),
        identity: Some(parse_smartctl_identity(report)),
        smart_attributes: table.attributes,
    }
}

/// Map smartctl JSON (NVMe / SATA / SAS) into [`DeviceHealth`].
pub fn parse_smartctl(j: &Value) -> (r: DeviceHealth)
    ensures
        r@ == health_of(report_of(json_of(*j))),
{
    parse_smartctl_report(&SmartctlReport::from_json(j))
}

/// The system error behind a [`CoreError`].
#[derive(Debug, Clone, Copy, PartialEq, Eq, Structural)]
pub enum Errno {
    ENOENT,
    EIO,
    ENXIO,
}

/// Why there is no health to report.
#[derive(Debug, Clone, Copy, PartialEq, Eq, Structural)]
pub enum CoreError {
    NotSupported { source: Errno },
}

/// A result with the health in it as its model.
pub open spec fn outcome(r: Result<DeviceHealth, CoreError>) -> Result<HealthModel, CoreError> {
    match r {
        Ok(health) => Ok(health@),
        Err(e) => Err(e),
    }
}

/// What a report comes to: it is of no use where smartctl could not open or identify the device,
/// which it then does not name.
pub open spec fn document_outcome(doc: Json) -> Result<HealthModel, CoreError> {
    if doc.member("device"@) is None {
        Err(CoreError::NotSupported { source: Errno::ENXIO })
    } else {
        Ok(health_of(report_of(doc)))
    }
}

/// What a run of smartctl comes to, by what it has written.
pub open spec fn run_outcome(stdout: Option<Seq<u8>>) -> Result<HealthModel, CoreError> {
    match stdout {
        None => Err(CoreError::NotSupported { source: Errno::ENOENT }),
        Some(text) => match parsed(text) {
            None => Err(CoreError::NotSupported { source: Errno::EIO }),
            Some(doc) => document_outcome(doc),
        },
    }
}

/// The arguments with which smartctl reports on the device at `path`.
pub fn smartctl_args(path: &str) -> (r: Vec<String>)
    ensures
        r@.map_values(|s: String| s@) == seq!["--json"@, "--all"@, path@],
{
    let mut args: Vec<String> = Vec::new();
    args.push("--json".to_string());
    args.push("--all".to_string());
    args.push(path.to_string());
    assert(args@.map_values(|s: String| s@) =~= seq!["--json"@, "--all"@, path@]);
    args
}

/// The health in the JSON that smartctl has written.
pub fn health_from_json(json: &Value) -> (r: Result<DeviceHealth, CoreError>)
    ensures
        outcome(r) == document_outcome(json_of(*json)),
{
    // If smartctl could not open / identify the device there is no usable data.
    if get_member(json, "device").is_none() {
        return Err(CoreError::NotSupported { source: Errno::ENXIO });
    }
    Ok(parse_smartctl(json))
}

/// Read SMART / health for a kernel block device out of what `smartctl` has written to its
/// standard output, run with [`smartctl_args`]. `stdout` is `None` where it could not be run.
///
/// smartctl uses a bitmask exit status where non-zero frequently just signals SMART warnings while
/// still emitting complete JSON, so the exit code has no say and the JSON is parsed regardless.
pub fn read_device_health(stdout: Option<&[u8]>) -> (r: Result<DeviceHealth, CoreError>)
    ensures
        outcome(r) == run_outcome(
            match stdout {
                Some(text) => Some(text@),
                None => None,
            },
        ),
{
    match stdout {
        // smartctl binary not found / not executable.
        None => Err(CoreError::NotSupported { source: Errno::ENOENT }),
        Some(text) => match parse_json(text) {
            Err(_) => Err(CoreError::NotSupported { source: Errno::EIO }),
            Ok(json) => health_from_json(&json),
        },
    }
}

} // verus!
