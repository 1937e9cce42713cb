use device_health::{
    health_from_json, parse_smartctl, parse_smartctl_identity, parse_smartctl_report,
    read_device_health, smartctl_args, CoreError, Errno, NvmeLog, SmartctlReport,
};
use serde_json::Value;

fn json(text: &str) -> Value {
    serde_json::from_str(text).unwrap()
}

#[test]
fn parses_kernel_nvme_log() {
    let j: Value = serde_json::from_str(
        r#"{
          "device": {"name": "/dev/nvme4n1", "type": "nvme"},
          "nvme_smart_health_information_log": {
            "critical_warning": 0,
            "temperature": 41,
            "available_spare": 100,
            "available_spare_threshold": 10,
            "percentage_used": 3,
            "data_units_read": 1000,
            "data_units_written": 2000,
            "host_reads": 3000,
            "host_writes": 4000,
            "controller_busy_time": 5,
            "power_cycles": 12,
            "power_on_hours": 4500,
            "unsafe_shutdowns": 1,
            "media_errors": 0,
            "num_err_log_entries": 5
          }
        }"#,
    )
    .unwrap();
    let h = parse_smartctl(&j);
    assert!(h.is_healthy());
    assert_eq!(h.temperature_celsius, Some(41));
    assert_eq!(h.available_spare_percent, Some(100));
    assert_eq!(h.percentage_used, Some(3));
    assert_eq!(h.data_units_written, Some(2000));
    assert_eq!(h.host_reads, Some(3000));
    assert_eq!(h.host_writes, Some(4000));
    assert_eq!(h.controller_busy_minutes, Some(5));
    assert_eq!(h.power_on_hours, Some(4500));
    assert_eq!(h.num_error_log_entries, Some(5));
    assert_eq!(h.available_spare_threshold_percent, Some(10));
    assert_eq!(h.data_units_read, Some(1000));
    assert_eq!(h.power_cycles, Some(12));
    assert_eq!(h.unsafe_shutdowns, Some(1));
    assert_eq!(h.media_errors, Some(0));
}

#[test]
fn parses_sata_attributes() {
    let j: Value = serde_json::from_str(
        r#"{
          "device": {"name": "/dev/sda", "type": "sat"},
          "smart_status": {"passed": true},
          "temperature": {"current": 38},
          "power_on_time": {"hours": 1200},
          "power_cycle_count": 44,
          "ata_smart_attributes": {"table": [
            {"id": 5,   "raw": {"value": 0}},
            {"id": 198, "raw": {"value": 3}}
          ]}
        }"#,
    )
    .unwrap();
    let h = parse_smartctl(&j);
    assert!(h.is_healthy());
    assert_eq!(h.temperature_celsius, Some(38));
    assert_eq!(h.power_on_hours, Some(1200));
    assert_eq!(h.power_cycles, Some(44));
    assert_eq!(h.media_errors, Some(0));
    assert_eq!(h.num_error_log_entries, Some(3));
}

#[test]
fn parses_device_identity_and_attribute_table() {
    let j: Value = serde_json::from_str(
        r#"{
          "device": {"name": "/dev/sda", "type": "sat", "protocol": "ATA"},
          "model_name": "ACME SuperDrive 1TB",
          "model_family": "ACME SuperDrive series",
          "serial_number": "S3R14LNUM",
          "firmware_version": "1.0",
          "user_capacity": {"bytes": 1000204886016},
          "logical_block_size": 512,
          "physical_block_size": 4096,
          "rotation_rate": 0,
          "form_factor": {"ata_value": 3, "name": "2.5 inches"},
          "interface_speed": {"current": {"string": "6.0 Gb/s"}},
          "smart_status": {"passed": true},
          "ata_smart_attributes": {"table": [
            {"id": 5, "name": "Reallocated_Sector_Ct", "value": 100, "worst": 100, "thresh": 10, "raw": {"value": 0}}
          ]}
        }"#,
    )
    .unwrap();
    let h = parse_smartctl(&j);
    let id = h.identity.expect("identity should be populated");
    assert_eq!(id.model, Some("ACME SuperDrive 1TB".to_string()));
    assert_eq!(id.model_family, Some("ACME SuperDrive series".to_string()));
    assert_eq!(id.serial_number, Some("S3R14LNUM".to_string()));
    assert_eq!(id.firmware_revision, Some("1.0".to_string()));
    assert_eq!(id.capacity_bytes, Some(1000204886016));
    assert_eq!(id.logical_sector_size, Some(512));
    assert_eq!(id.physical_sector_size, Some(4096));
    assert_eq!(id.rotation_rate, Some(0));
    assert_eq!(id.form_factor, Some("2.5 inches".to_string()));
    assert_eq!(id.transport, Some("ATA".to_string()));
    assert_eq!(id.link_speed, Some("6.0 Gb/s".to_string()));

    assert_eq!(h.smart_attributes.len(), 1);
    let attr = &h.smart_attributes[0];
    assert_eq!(attr.id, 5);
    assert_eq!(attr.name, "Reallocated_Sector_Ct");
    assert_eq!(attr.value, 100);
    assert_eq!(attr.worst, 100);
    assert_eq!(attr.threshold, 10);
    assert_eq!(attr.raw_value, 0);
}

#[test]
fn nvme_smart_log_reports_no_attribute_table() {
    // SAS/NVMe report an empty attribute list -- their thresholds are already first-class fields
    // on DeviceHealth.
    let j: Value = serde_json::from_str(
        r#"{"device": {"name": "/dev/nvme4n1", "type": "nvme"},
            "nvme_smart_health_information_log": {"critical_warning": 0}}"#,
    )
    .unwrap();
    let h = parse_smartctl(&j);
    assert!(h.smart_attributes.is_empty());
}

#[test]
fn maps_failed_status_to_reliability_flag() {
    let j: Value = serde_json::from_str(
        r#"{"device":{"name":"/dev/sdb"},"smart_status":{"passed":false},
            "temperature":{"current":55}}"#,
    )
    .unwrap();
    let h = parse_smartctl(&j);
    assert!(!h.is_healthy());
    assert!(h.reliability_degraded());
    assert_eq!(h.temperature_celsius, Some(55));
}

#[test]
fn failed_status_joins_the_nvme_warnings() {
    let h = parse_smartctl(&json(
        r#"{"smart_status": {"passed": false},
            "nvme_smart_health_information_log": {"critical_warning": 9}}"#,
    ));
    assert_eq!(h.critical_warning, 0x0d);
    assert!(h.spare_below_threshold());
    assert!(!h.temperature_critical());
    assert!(h.reliability_degraded());
    assert!(h.media_read_only());
    assert!(!h.volatile_backup_failed());

    let h = parse_smartctl(&json(
        r#"{"smart_status": {"passed": false},
            "nvme_smart_health_information_log": {"critical_warning": 260}}"#,
    ));
    assert_eq!(h.critical_warning, 0x04);
}

#[test]
fn nvme_log_comes_before_the_top_level() {
    let h = parse_smartctl(&json(
        r#"{"temperature": {"current": 30}, "power_on_time": {"hours": 7}, "power_cycle_count": 8,
            "nvme_smart_health_information_log":
              {"temperature": -5, "power_on_hours": 70, "power_cycles": 80}}"#,
    ));
    assert_eq!(h.temperature_celsius, Some(-5));
    assert_eq!(h.power_on_hours, Some(70));
    assert_eq!(h.power_cycles, Some(80));
}

#[test]
fn table_fills_in_what_is_missing() {
    let h = parse_smartctl(&json(
        r#"{"ata_smart_attributes": {"table": [
              {"id": 9}, {"id": 9, "raw": {"value": 11}}, {"id": 9, "raw": {"value": 12}},
              {"id": 12, "raw": {"value": 13}},
              {"id": 194, "raw": {"value": 4294967328}}, {"id": 190, "raw": {"value": 99}},
              {"id": 187, "raw": {"value": 1}}, {"id": 198, "raw": {"value": 2}}, {"id": 187},
              {"id": 5, "raw": {"value": 3}}, {"id": 5, "raw": {"value": 4}}
            ]},
            "scsi_grown_defect_list": 50}"#,
    ));
    assert_eq!(h.power_on_hours, Some(11));
    assert_eq!(h.power_cycles, Some(13));
    assert_eq!(h.temperature_celsius, Some(32));
    assert_eq!(h.num_error_log_entries, Some(2));
    assert_eq!(h.media_errors, Some(4));
    assert_eq!(h.smart_attributes.len(), 11);
    assert_eq!(h.smart_attributes[0].name, "");
    assert_eq!(h.smart_attributes[0].raw_value, 0);
    assert_eq!(h.smart_attributes[4].raw_value, 4294967328);
}

#[test]
fn table_does_not_replace_cleaner_values() {
    let h = parse_smartctl(&json(
        r#"{"temperature": {"current": 30}, "power_on_time": {"hours": 7}, "power_cycle_count": 8,
            "nvme_smart_health_information_log": {"media_errors": 6, "num_err_log_entries": 7},
            "ata_smart_attributes": {"table": [
              {"id": 9, "raw": {"value": 11}}, {"id": 12, "raw": {"value": 13}},
              {"id": 194, "raw": {"value": 40}}, {"id": 5, "raw": {"value": 1}},
              {"id": 198, "raw": {"value": 2}}
            ]}}"#,
    ));
    assert_eq!(h.temperature_celsius, Some(30));
    assert_eq!(h.power_on_hours, Some(7));
    assert_eq!(h.power_cycles, Some(8));
    assert_eq!(h.media_errors, Some(1));
    assert_eq!(h.num_error_log_entries, Some(2));
}

#[test]
fn table_ids_are_told_apart_before_they_are_narrowed() {
    let h = parse_smartctl(&json(
        r#"{"ata_smart_attributes": {"table": [
              {"id": 261, "value": 300, "raw": {"value": 3}}, {"raw": {"value": 4}}, "odd"
            ]}}"#,
    ));
    assert_eq!(h.media_errors, None);
    assert_eq!(h.smart_attributes.len(), 3);
    assert_eq!(h.smart_attributes[0].id, 5);
    assert_eq!(h.smart_attributes[0].value, 44);
    assert_eq!(h.smart_attributes[1].id, 0);
    assert_eq!(h.smart_attributes[1].raw_value, 4);
    assert_eq!(h.smart_attributes[2].id, 0);
}

#[test]
fn grown_defects_count_when_nothing_else_does() {
    let h = parse_smartctl(&json(r#"{"scsi_grown_defect_list": 17}"#));
    assert_eq!(h.media_errors, Some(17));
    let h = parse_smartctl(&json(
        r#"{"scsi_grown_defect_list": 17, "nvme_smart_health_information_log": {"media_errors": 2}}"#,
    ));
    assert_eq!(h.media_errors, Some(2));
}

#[test]
fn values_of_another_type_are_not_reported() {
    let h = parse_smartctl(&json(
        r#"{"model_name": 5, "user_capacity": {"bytes": -1}, "logical_block_size": 512.0,
            "rotation_rate": "7200", "smart_status": {"passed": "false"},
            "temperature": {"current": 18446744073709551615}, "power_on_time": [1],
            "nvme_smart_health_information_log": null,
            "ata_smart_attributes": {"table": {"0": {"id": 5, "raw": {"value": 1}}}}}"#,
    ));
    let id = h.identity.as_ref().unwrap();
    assert_eq!(id.model, None);
    assert_eq!(id.capacity_bytes, None);
    assert_eq!(id.logical_sector_size, None);
    assert_eq!(id.rotation_rate, None);
    assert!(h.is_healthy());
    assert_eq!(h.temperature_celsius, None);
    assert_eq!(h.power_on_hours, None);
    assert_eq!(h.media_errors, None);
    assert!(h.smart_attributes.is_empty());
}

#[test]
fn narrowed_readings_keep_their_low_bits() {
    let h = parse_smartctl(&json(
        r#"{"temperature": {"current": 32768}, "logical_block_size": 4294967808,
            "nvme_smart_health_information_log": {"percentage_used": 511}}"#,
    ));
    assert_eq!(h.temperature_celsius, Some(-32768));
    assert_eq!(h.percentage_used, Some(255));
    assert_eq!(h.identity.unwrap().logical_sector_size, Some(512));
}

#[test]
fn world_wide_name_is_padded() {
    let h = parse_smartctl(&json(r#"{"wwn": {"naa": 5, "oui": 5358, "id": 47}}"#));
    assert_eq!(
        h.identity.unwrap().wwn,
        Some("50014ee000000002f".to_string())
    );
    let h = parse_smartctl(&json(
        r#"{"wwn": {"naa": 18446744073709551615, "oui": 4294967295, "id": 1311768467463790320}}"#,
    ));
    assert_eq!(
        h.identity.unwrap().wwn,
        Some("ffffffffffffffffffffffff123456789abcdef0".to_string())
    );
    let h = parse_smartctl(&json(r#"{"wwn": {"naa": 0, "oui": 0, "id": 0}}"#));
    assert_eq!(
        h.identity.unwrap().wwn,
        Some("00000000000000000".to_string())
    );
    let h = parse_smartctl(&json(r#"{"wwn": {"naa": 5, "oui": 5358}}"#));
    assert_eq!(h.identity.unwrap().wwn, None);
}

#[test]
fn report_holds_what_the_json_says() {
    let r = SmartctlReport::from_json(&json(
        r#"{"device": {"protocol": "SCSI"}, "wwn": {"naa": 5},
            "interface_speed": {"current": {"string": "12.0 Gb/s"}},
            "ata_smart_attributes": {"table": [{"name": "x", "thresh": 6}]}}"#,
    ));
    assert_eq!(r.protocol, Some("SCSI".to_string()));
    assert_eq!(r.link_speed, Some("12.0 Gb/s".to_string()));
    assert_eq!((r.wwn_naa, r.wwn_oui, r.wwn_id), (Some(5), None, None));
    assert_eq!(r.ata_table.len(), 1);
    assert_eq!(r.ata_table[0].name, Some("x".to_string()));
    assert_eq!(r.ata_table[0].thresh, Some(6));
    assert_eq!(r.ata_table[0].id, None);
    assert_eq!(r.nvme.critical_warning, None);
}

#[test]
fn report_is_mapped_without_json() {
    let report = SmartctlReport {
        model_name: Some("m".to_string()),
        model_family: None,
        serial_number: None,
        firmware_version: None,
        wwn_naa: None,
        wwn_oui: None,
        wwn_id: None,
        capacity_bytes: None,
        logical_block_size: None,
        physical_block_size: None,
        rotation_rate: Some(7200),
        form_factor: None,
        protocol: None,
        link_speed: None,
        passed: None,
        temperature: None,
        power_on_hours: None,
        power_cycle_count: None,
        nvme: NvmeLog {
            host_reads: Some(9),
            ..NvmeLog::default()
        },
        ata_table: vec![],
        grown_defects: None,
    };
    let h = parse_smartctl_report(&report);
    assert_eq!(h.host_reads, Some(9));
    assert_eq!(h.host_writes, None);
    assert!(h.is_healthy());
    let id = parse_smartctl_identity(&report);
    assert_eq!(id.model, Some("m".to_string()));
    assert_eq!(id.rotation_rate, Some(7200));
    assert_eq!(h.identity.unwrap().model, Some("m".to_string()));
}

#[test]
fn smartctl_is_asked_for_everything() {
    assert_eq!(smartctl_args("/dev/sda"), vec!["--json", "--all", "/dev/sda"]);
}

#[test]
fn missing_smartctl_is_not_supported() {
    assert_eq!(
        read_device_health(None).unwrap_err(),
        CoreError::NotSupported { source: Errno::ENOENT }
    );
}

#[test]
fn output_that_is_no_json_is_not_supported() {
    for text in ["", "smartctl 7.4", "{\"device\": {}", "{} {}"] {
        assert_eq!(
            read_device_health(Some(text.as_bytes())).unwrap_err(),
            CoreError::NotSupported { source: Errno::EIO }
        );
    }
    assert_eq!(
        read_device_health(Some(b"\"\xff\"")).unwrap_err(),
        CoreError::NotSupported { source: Errno::EIO }
    );
}

#[test]
fn report_without_device_is_not_supported() {
    assert_eq!(
        read_device_health(Some(b"{\"smartctl\": {\"exit_status\": 2}}")).unwrap_err(),
        CoreError::NotSupported { source: Errno::ENXIO }
    );
    assert_eq!(
        health_from_json(&json("[]")).unwrap_err(),
        CoreError::NotSupported { source: Errno::ENXIO }
    );
}

#[test]
fn output_is_parsed_whatever_the_exit_status() {
    let h = read_device_health(Some(
        br#"{"smartctl": {"exit_status": 64}, "device": null, "serial_number": "abc"}"#,
    ))
    .unwrap();
    assert_eq!(
        h.identity.unwrap().serial_number,
        Some("abc".to_string())
    );
}

#[test]
fn empty_report_leaves_everything_unset() {
    let h = parse_smartctl(&json("{}"));
    let mut blank = device_health::DeviceHealth::default();
    blank.identity = Some(device_health::DeviceIdentity::default());
    assert_eq!(format!("{h:?}"), format!("{blank:?}"));
}

#[test]
fn identity_does_not_depend_on_readings() {
    let a = parse_smartctl(&json(r#"{"model_name": "m", "serial_number": "s"}"#));
    let b = parse_smartctl(&json(
        r#"{"model_name": "m", "serial_number": "s", "smart_status": {"passed": false},
            "nvme_smart_health_information_log": {"critical_warning": 1},
            "ata_smart_attributes": {"table": [{"id": 5}]}, "scsi_grown_defect_list": 1}"#,
    ));
    assert_eq!(format!("{:?}", a.identity), format!("{:?}", b.identity));
}

#[test]
fn world_wide_names_differ_where_a_part_does() {
    let wwn = |naa: u64, oui: u64, id: u64| {
        let text = format!(r#"{{"wwn": {{"naa": {naa}, "oui": {oui}, "id": {id}}}}}"#);
        parse_smartctl(&json(&text)).identity.unwrap().wwn.unwrap()
    };
    assert_eq!(wwn(5, 0xabcdef, 0xff_ffff_ffff), "5abcdefffffffffff");
    assert_ne!(wwn(5, 1, 2), wwn(5, 2, 1));
    assert_ne!(wwn(1, 0x111111, 0), wwn(0x11, 0x11111, 0));
    assert_eq!(wwn(5, 0, 0).len(), 17);
}
