//! What `smartctl --json` reports, as far as the library reads it.

use crate::json::{
    bool_at, boolean_at, elements_at, get_member, i64_at, json_of, lemma_one_key, lemma_two_keys,
    member_i64, member_string, member_u64, plain_key, signed_at, slashed, spells, string_at,
    text_at, u64_at, unsigned_at, Json,
};
use serde_json::Value;
use vstd::prelude::*;

verus! {

/// The SMART/health log of an NVMe device. Fields are unset where the log does not hold them.
#[derive(Debug, Clone, Copy)]
pub struct NvmeLog {
    pub critical_warning: Option<u64>,
    pub temperature: Option<i64>,
    pub available_spare: Option<u64>,
    pub available_spare_threshold: Option<u64>,
    pub percentage_used: Option<u64>,
    pub data_units_read: Option<u64>,
    pub data_units_written: Option<u64>,
    pub host_reads: Option<u64>,
    pub host_writes: Option<u64>,
    pub controller_busy_time: Option<u64>,
    pub power_cycles: Option<u64>,
    pub power_on_hours: Option<u64>,
    pub unsafe_shutdowns: Option<u64>,
    pub media_errors: Option<u64>,
    pub num_err_log_entries: Option<u64>,
}

/// An entry of the vendor attribute table of a SATA device.
#[derive(Debug)]
pub struct AtaEntry {
    pub id: Option<u64>,
    pub name: Option<String>,
    pub value: Option<u64>,
    pub worst: Option<u64>,
    pub thresh: Option<u64>,
    pub raw: Option<u64>,
}

/// A report of smartctl. Fields are unset where the report does not hold them, or holds something
/// of another type.
#[derive(Debug)]
pub struct SmartctlReport {
    pub model_name: Option<String>,
    pub model_family: Option<String>,
    pub serial_number: Option<String>,
    pub firmware_version: Option<String>,
    pub wwn_naa: Option<u64>,
    pub wwn_oui: Option<u64>,
    pub wwn_id: Option<u64>,
    pub capacity_bytes: Option<u64>,
    pub logical_block_size: Option<u64>,
    pub physical_block_size: Option<u64>,
    pub rotation_rate: Option<u64>,
    pub form_factor: Option<String>,
    pub protocol: Option<String>,
    pub link_speed: Option<String>,
    /// The overall verdict of the device on itself.
    pub passed: Option<bool>,
    pub temperature: Option<i64>,
    pub power_on_hours: Option<u64>,
    pub power_cycle_count: Option<u64>,
    /// The NVMe log, nothing of it set where there is none.
    pub nvme: NvmeLog,
    /// The vendor attribute table, empty where there is none.
    pub ata_table: Vec<AtaEntry>,
    /// The length of the grown defect list of a SAS device.
    pub grown_defects: Option<u64>,
}

impl NvmeLog {
    /// A log that holds nothing.
    pub open spec fn unset() -> NvmeLog {
        NvmeLog {
            critical_warning: None,
            temperature: None,
            available_spare: None,
            available_spare_threshold: None,
            percentage_used: None,
            data_units_read: None,
            data_units_written: None,
            host_reads: None,
            host_writes: None,
            controller_busy_time: None,
            power_cycles: None,
            power_on_hours: None,
            unsafe_shutdowns: None,
            media_errors: None,
            num_err_log_entries: None,
        }
    }
}

impl Default for NvmeLog {
    /// A log of which nothing is set.
    fn default() -> (r: Self)
        ensures
            r == NvmeLog::unset(),
    {
        NvmeLog {
            critical_warning: None,
            temperature: None,
            available_spare: None,
            available_spare_threshold: None,
            percentage_used: None,
            data_units_read: None,
            data_units_written: None,
            host_reads: None,
            host_writes: None,
            controller_busy_time: None,
            power_cycles: None,
            power_on_hours: None,
            unsafe_shutdowns: None,
            media_errors: None,
            num_err_log_entries: None,
        }
    }
}

/// An [`AtaEntry`] with its name as a sequence of characters.
#[verifier::ext_equal]
pub struct EntryModel {
    pub id: Option<u64>,
    pub name: Option<Seq<char>>,
    pub value: Option<u64>,
    pub worst: Option<u64>,
    pub thresh: Option<u64>,
    pub raw: Option<u64>,
}

/// A [`SmartctlReport`] with its strings and its table as sequences.
#[verifier::ext_equal]
pub struct ReportModel {
    pub model_name: Option<Seq<char>>,
    pub model_family: Option<Seq<char>>,
    pub serial_number: Option<Seq<char>>,
    pub firmware_version: Option<Seq<char>>,
    pub wwn_naa: Option<u64>,
    pub wwn_oui: Option<u64>,
    pub wwn_id: Option<u64>,
    pub capacity_bytes: Option<u64>,
    pub logical_block_size: Option<u64>,
    pub physical_block_size: Option<u64>,
    pub rotation_rate: Option<u64>,
    pub form_factor: Option<Seq<char>>,
    pub protocol: Option<Seq<char>>,
    pub link_speed: Option<Seq<char>>,
    pub passed: Option<bool>,
    pub temperature: Option<i64>,
    pub power_on_hours: Option<u64>,
    pub power_cycle_count: Option<u64>,
    pub nvme: NvmeLog,
    pub ata_table: Seq<EntryModel>,
    pub grown_defects: Option<u64>,
}

impl View for AtaEntry {
    type V = EntryModel;

    open spec fn view(&self) -> EntryModel {
        EntryModel {
            id: self.id,
            name: self.name.deep_view(),
            value: self.value,
            worst: self.worst,
            thresh: self.thresh,
            raw: self.raw,
        }
    }
}

impl View for SmartctlReport {
    type V = ReportModel;

    open spec fn view(&self) -> ReportModel {
        ReportModel {
            model_name: self.model_name.deep_view(),
            model_family: self.model_family.deep_view(),
            serial_number: self.serial_number.deep_view(),
            firmware_version: self.firmware_version.deep_view(),
            wwn_naa: self.wwn_naa,
            wwn_oui: self.wwn_oui,
            wwn_id: self.wwn_id,
            capacity_bytes: self.capacity_bytes,
            logical_block_size: self.logical_block_size,
            physical_block_size: self.physical_block_size,
            rotation_rate: self.rotation_rate,
            form_factor: self.form_factor.deep_view(),
            protocol: self.protocol.deep_view(),
            link_speed: self.link_speed.deep_view(),
            passed: self.passed,
            temperature: self.temperature,
            power_on_hours: self.power_on_hours,
            power_cycle_count: self.power_cycle_count,
            nvme: self.nvme,
            ata_table: self.ata_table@.map_values(|e: AtaEntry| e@),
            grown_defects: self.grown_defects,
        }
    }
}

/// Where the NVMe log of a report holds `key`.
pub open spec fn log_path(key: Seq<char>) -> Seq<Seq<char>> {
    seq!["nvme_smart_health_information_log"@, key]
}

/// The unsigned integer in the NVMe log of a report under `key`.
pub open spec fn log_counter(doc: Json, key: Seq<char>) -> Option<u64> {
    unsigned_at(doc, log_path(key))
}

/// The NVMe log in a report.
pub open spec fn log_of(doc: Json) -> NvmeLog {
    NvmeLog {
        critical_warning: log_counter(doc, "critical_warning"@),
        temperature: signed_at(doc, log_path("temperature"@)),
        available_spare: log_counter(doc, "available_spare"@),
        available_spare_threshold: log_counter(doc, "available_spare_threshold"@),
        percentage_used: log_counter(doc, "percentage_used"@),
        data_units_read: log_counter(doc, "data_units_read"@),
        data_units_written: log_counter(doc, "data_units_written"@),
        host_reads: log_counter(doc, "host_reads"@),
        host_writes: log_counter(doc, "host_writes"@),
        controller_busy_time: log_counter(doc, "controller_busy_time"@),
        power_cycles: log_counter(doc, "power_cycles"@),
        power_on_hours: log_counter(doc, "power_on_hours"@),
        unsafe_shutdowns: log_counter(doc, "unsafe_shutdowns"@),
        media_errors: log_counter(doc, "media_errors"@),
        num_err_log_entries: log_counter(doc, "num_err_log_entries"@),
    }
}

/// An entry of the vendor attribute table in a report.
pub open spec fn entry_of(entry: Json) -> EntryModel {
    EntryModel {
        id: unsigned_at(entry, seq!["id"@]),
        name: text_at(entry, seq!["name"@]),
        value: unsigned_at(entry, seq!["value"@]),
        worst: unsigned_at(entry, seq!["worst"@]),
        thresh: unsigned_at(entry, seq!["thresh"@]),
        raw: unsigned_at(entry, seq!["raw"@, "value"@]),
    }
}

/// The report that a document holds.
pub open spec fn report_of(doc: Json) -> ReportModel {
    ReportModel {
        model_name: text_at(doc, seq!["model_name"@]),
        model_family: text_at(doc, seq!["model_family"@]),
        serial_number: text_at(doc, seq!["serial_number"@]),
        firmware_version: text_at(doc, seq!["firmware_version"@]),
        wwn_naa: unsigned_at(doc, seq!["wwn"@, "naa"@]),
        wwn_oui: unsigned_at(doc, seq!["wwn"@, "oui"@]),
        wwn_id: unsigned_at(doc, seq!["wwn"@, "id"@]),
        capacity_bytes: unsigned_at(doc, seq!["user_capacity"@, "bytes"@]),
        logical_block_size: unsigned_at(doc, seq!["logical_block_size"@]),
        physical_block_size: unsigned_at(doc, seq!["physical_block_size"@]),
        rotation_rate: unsigned_at(doc, seq!["rotation_rate"@]),
        form_factor: text_at(doc, seq!["form_factor"@, "name"@]),
        protocol: text_at(doc, seq!["device"@, "protocol"@]),
        link_speed: text_at(doc, seq!["interface_speed"@, "current"@, "string"@]),
        passed: boolean_at(doc, seq!["smart_status"@, "passed"@]),
        temperature: signed_at(doc, seq!["temperature"@, "current"@]),
        power_on_hours: unsigned_at(doc, seq!["power_on_time"@, "hours"@]),
        power_cycle_count: unsigned_at(doc, seq!["power_cycle_count"@]),
        nvme: log_of(doc),
        ata_table: elements_at(doc, seq!["ata_smart_attributes"@, "table"@]).map_values(
            |e: Json| entry_of(e),
        ),
        grown_defects: unsigned_at(doc, seq!["scsi_grown_defect_list"@]),
    }
}

proof fn lemma_spells_one(pointer: Seq<char>, a: Seq<char>)
    requires
        pointer =~= seq!['/'] + a,
        plain_key(a),
    ensures
        spells(pointer, seq![a]),
{
    reveal_with_fuel(slashed, 2);
    assert(pointer =~= slashed(seq![a]));
}

proof fn lemma_spells_two(pointer: Seq<char>, a: Seq<char>, b: Seq<char>)
    requires
        pointer =~= seq!['/'] + a + seq!['/'] + b,
        plain_key(a),
        plain_key(b),
    ensures
        spells(pointer, seq![a, b]),
{
    reveal_with_fuel(slashed, 3);
    assert(seq![a, b].drop_first() =~= seq![b]);
    assert(pointer =~= slashed(seq![a, b]));
}

proof fn lemma_spells_three(pointer: Seq<char>, a: Seq<char>, b: Seq<char>, c: Seq<char>)
    requires
        pointer =~= seq!['/'] + a + seq!['/'] + b + seq!['/'] + c,
        plain_key(a),
        plain_key(b),
        plain_key(c),
    ensures
        spells(pointer, seq![a, b, c]),
{
    reveal_with_fuel(slashed, 4);
    assert(seq![a, b, c].drop_first() =~= seq![b, c]);
    assert(seq![b, c].drop_first() =~= seq![c]);
    assert(pointer =~= slashed(seq![a, b, c]));
}

/// The pointers to single members of a report.
proof fn lemma_member_pointers()
    ensures
        spells("/model_name"@, seq!["model_name"@]),
        spells("/model_family"@, seq!["model_family"@]),
        spells("/serial_number"@, seq!["serial_number"@]),
        spells("/firmware_version"@, seq!["firmware_version"@]),
        spells("/wwn"@, seq!["wwn"@]),
        spells("/logical_block_size"@, seq!["logical_block_size"@]),
        spells("/physical_block_size"@, seq!["physical_block_size"@]),
        spells("/rotation_rate"@, seq!["rotation_rate"@]),
        spells("/power_cycle_count"@, seq!["power_cycle_count"@]),
        spells("/scsi_grown_defect_list"@, seq!["scsi_grown_defect_list"@]),
{
    reveal_strlit("/model_name");
    reveal_strlit("model_name");
    lemma_spells_one("/model_name"@, "model_name"@);
    reveal_strlit("/model_family");
    reveal_strlit("model_family");
    lemma_spells_one("/model_family"@, "model_family"@);
    reveal_strlit("/serial_number");
    reveal_strlit("serial_number");
    lemma_spells_one("/serial_number"@, "serial_number"@);
    reveal_strlit("/firmware_version");
    reveal_strlit("firmware_version");
    lemma_spells_one("/firmware_version"@, "firmware_version"@);
    reveal_strlit("/wwn");
    reveal_strlit("wwn");
    lemma_spells_one("/wwn"@, "wwn"@);
    reveal_strlit("/logical_block_size");
    reveal_strlit("logical_block_size");
    lemma_spells_one("/logical_block_size"@, "logical_block_size"@);
    reveal_strlit("/physical_block_size");
    reveal_strlit("physical_block_size");
    lemma_spells_one("/physical_block_size"@, "physical_block_size"@);
    reveal_strlit("/rotation_rate");
    reveal_strlit("rotation_rate");
    lemma_spells_one("/rotation_rate"@, "rotation_rate"@);
    reveal_strlit("/power_cycle_count");
    reveal_strlit("power_cycle_count");
    lemma_spells_one("/power_cycle_count"@, "power_cycle_count"@);
    reveal_strlit("/scsi_grown_defect_list");
    reveal_strlit("scsi_grown_defect_list");
    lemma_spells_one("/scsi_grown_defect_list"@, "scsi_grown_defect_list"@);
}

/// The pointers to what lies deeper in a report, and to the raw value of a table entry.
proof fn lemma_nested_pointers()
    ensures
        spells("/form_factor/name"@, seq!["form_factor"@, "name"@]),
        spells("/user_capacity/bytes"@, seq!["user_capacity"@, "bytes"@]),
        spells("/device/protocol"@, seq!["device"@, "protocol"@]),
        spells("/smart_status/passed"@, seq!["smart_status"@, "passed"@]),
        spells("/temperature/current"@, seq!["temperature"@, "current"@]),
        spells("/power_on_time/hours"@, seq!["power_on_time"@, "hours"@]),
        spells("/ata_smart_attributes/table"@, seq!["ata_smart_attributes"@, "table"@]),
        spells("/raw/value"@, seq!["raw"@, "value"@]),
        spells("/interface_speed/current/string"@, seq!["interface_speed"@, "current"@, "string"@]),
{
    reveal_strlit("/form_factor/name");
    reveal_strlit("form_factor");
    reveal_strlit("name");
    lemma_spells_two("/form_factor/name"@, "form_factor"@, "name"@);
    reveal_strlit("/user_capacity/bytes");
    reveal_strlit("user_capacity");
    reveal_strlit("bytes");
    lemma_spells_two("/user_capacity/bytes"@, "user_capacity"@, "bytes"@);
    reveal_strlit("/device/protocol");
    reveal_strlit("device");
    reveal_strlit("protocol");
    lemma_spells_two("/device/protocol"@, "device"@, "protocol"@);
    reveal_strlit("/smart_status/passed");
    reveal_strlit("smart_status");
    reveal_strlit("passed");
    lemma_spells_two("/smart_status/passed"@, "smart_status"@, "passed"@);
    reveal_strlit("/temperature/current");
    reveal_strlit("temperature");
    reveal_strlit("current");
    lemma_spells_two("/temperature/current"@, "temperature"@, "current"@);
    reveal_strlit("/power_on_time/hours");
    reveal_strlit("power_on_time");
    reveal_strlit("hours");
    lemma_spells_two("/power_on_time/hours"@, "power_on_time"@, "hours"@);
    reveal_strlit("/ata_smart_attributes/table");
    reveal_strlit("ata_smart_attributes");
    reveal_strlit("table");
    lemma_spells_two("/ata_smart_attributes/table"@, "ata_smart_attributes"@, "table"@);
    reveal_strlit("/raw/value");
    reveal_strlit("raw");
    reveal_strlit("value");
    lemma_spells_two("/raw/value"@, "raw"@, "value"@);
    reveal_strlit("/interface_speed/current/string");
    reveal_strlit("interface_speed");
    reveal_strlit("string");
    lemma_spells_three(
        "/interface_speed/current/string"@,
        "interface_speed"@,
        "current"@,
        "string"@,
    );
}

/// Reads the NVMe log of a report.
fn read_log(j: &Value) -> (r: NvmeLog)
    ensures
        r == log_of(json_of(*j)),
{
    let ghost doc = json_of(*j);
    let log: Option<&Value> = get_member(j, "nvme_smart_health_information_log");
    proof {
        assert forall|key: Seq<char>| #[trigger] doc.at(log_path(key)) == (match doc.member(
            "nvme_smart_health_information_log"@,
        ) {
            Some(n) => n.at(seq![key]),
            None => None,
        }) by {
            lemma_two_keys(doc, "nvme_smart_health_information_log"@, key);
            if let Some(n) = doc.member("nvme_smart_health_information_log"@) {
                lemma_one_key(n, key);
            }
        }
    }
    match log {
        Some(n) => NvmeLog {
            critical_warning: member_u64(n, "critical_warning"),
            temperature: member_i64(n, "temperature"),
            available_spare: member_u64(n, "available_spare"),
            available_spare_threshold: member_u64(n, "available_spare_threshold"),
            percentage_used: member_u64(n, "percentage_used"),
            data_units_read: member_u64(n, "data_units_read"),
            data_units_written: member_u64(n, "data_units_written"),
            host_reads: member_u64(n, "host_reads"),
            host_writes: member_u64(n, "host_writes"),
            controller_busy_time: member_u64(n, "controller_busy_time"),
            power_cycles: member_u64(n, "power_cycles"),
            power_on_hours: member_u64(n, "power_on_hours"),
            unsafe_shutdowns: member_u64(n, "unsafe_shutdowns"),
            media_errors: member_u64(n, "media_errors"),
            num_err_log_entries: member_u64(n, "num_err_log_entries"),
        },
        None => NvmeLog::default(),
    }
}

/// Reads an entry of the vendor attribute table.
fn read_entry(attr: &Value) -> (r: AtaEntry)
    ensures
        r@ == entry_of(json_of(*attr)),
{
    proof {
        lemma_nested_pointers();
    }
    AtaEntry {
        id: member_u64(attr, "id"),
        name: member_string(attr, "name"),
        value: member_u64(attr, "value"),
        worst: member_u64(attr, "worst"),
        thresh: member_u64(attr, "thresh"),
        raw: u64_at(attr, "/raw/value"),
    }
}

/// Reads the vendor attribute table of a report.
fn read_table(j: &Value) -> (r: Vec<AtaEntry>)
    ensures
        r@.map_values(|e: AtaEntry| e@) == elements_at(
            json_of(*j),
            seq!["ata_smart_attributes"@, "table"@],
        ).map_values(|e: Json| entry_of(e)),
{
    let ghost elements = elements_at(json_of(*j), seq!["ata_smart_attributes"@, "table"@]);
    let mut table: Vec<AtaEntry> = Vec::new();
    proof {
        lemma_nested_pointers();
    }
    if let Some(value) = j.pointer("/ata_smart_attributes/table") {
        if let Some(items) = value.as_array() {
            let mut i: usize = 0;
            while i < items.len()
                invariant
                    i <= items@.len(),
                    elements == items@.map_values(|v: Value| json_of(v)),
                    table@.len() == i,
                    forall|k: int| 0 <= k < i ==> (#[trigger] table@[k])@ == entry_of(elements[k]),
                decreases items@.len() - i,
            {
                table.push(read_entry(&items[i]));
                i = i + 1;
            }
        }
    }
    assert(table@.map_values(|e: AtaEntry| e@) =~= elements.map_values(|e: Json| entry_of(e)));
    table
}

/// Reads the three parts of a world wide name.
fn read_wwn(j: &Value) -> (r: (Option<u64>, Option<u64>, Option<u64>))
    ensures
        r.0 == unsigned_at(json_of(*j), seq!["wwn"@, "naa"@]),
        r.1 == unsigned_at(json_of(*j), seq!["wwn"@, "oui"@]),
        r.2 == unsigned_at(json_of(*j), seq!["wwn"@, "id"@]),
{
    let ghost doc = json_of(*j);
    proof {
        lemma_member_pointers();
        lemma_one_key(doc, "wwn"@);
        lemma_two_keys(doc, "wwn"@, "naa"@);
        lemma_two_keys(doc, "wwn"@, "oui"@);
        lemma_two_keys(doc, "wwn"@, "id"@);
        if let Some(w) = doc.member("wwn"@) {
            lemma_one_key(w, "naa"@);
            lemma_one_key(w, "oui"@);
            lemma_one_key(w, "id"@);
        }
    }
    match j.pointer("/wwn") {
        Some(w) => (member_u64(w, "naa"), member_u64(w, "oui"), member_u64(w, "id")),
        None => (None, None, None),
    }
}

impl SmartctlReport {
    /// Reads a report out of the JSON that smartctl has written.
    pub fn from_json(j: &Value) -> (r: SmartctlReport)
        ensures
            r@ == report_of(json_of(*j)),
    {
        proof {
            lemma_member_pointers();
            lemma_nested_pointers();
        }
        let (wwn_naa, wwn_oui, wwn_id) = read_wwn(j);
        SmartctlReport {
            model_name: string_at(j, "/model_name"),
            model_family: string_at(j, "/model_family"),
            serial_number: string_at(j, "/serial_number"),
            firmware_version: string_at(j, "/firmware_version"),
            wwn_naa,
            wwn_oui,
            wwn_id,
            capacity_bytes: u64_at(j, "/user_capacity/bytes"),
            logical_block_size: u64_at(j, "/logical_block_size"),
            physical_block_size: u64_at(j, "/physical_block_size"),
            rotation_rate: u64_at(j, "/rotation_rate"),
            form_factor: string_at(j, "/form_factor/name"),
            protocol: string_at(j, "/device/protocol"),
            link_speed: string_at(j, "/interface_speed/current/string"),
            passed: bool_at(j, "/smart_status/passed"),
            temperature: i64_at(j, "/temperature/current"),
            power_on_hours: u64_at(j, "/power_on_time/hours"),
            power_cycle_count: u64_at(j, "/power_cycle_count"),
            nvme: read_log(j),
            ata_table: read_table(j),
            grown_defects: u64_at(j, "/scsi_grown_defect_list"),
        }
    }
}

} // verus!
