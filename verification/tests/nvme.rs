use device_health::{
    cache_nvme_identity, cached_nvme_identity, identity_from_nvme_identify, parse_smartctl_report,
    DeviceHealth, DeviceIdentity, NvmeIdentityCache, SmartctlReport,
};

#[test]
fn parses_nvme_identify_controller_data() {
    let mut buf = vec![0u8; 4096];
    buf[4..24].copy_from_slice(b"SERIAL1234          ");
    let model = b"Intel Optane P4800X 375GB              ";
    buf[24..64].fill(b' ');
    buf[24..24 + model.len()].copy_from_slice(model);
    buf[64..72].copy_from_slice(b"E201DP35");

    let id = identity_from_nvme_identify(&buf).expect("should parse");
    assert_eq!(id.serial_number, Some("SERIAL1234".to_string()));
    assert_eq!(id.model, Some("Intel Optane P4800X 375GB".to_string()));
    assert_eq!(id.firmware_revision, Some("E201DP35".to_string()));
    assert_eq!(id.rotation_rate, Some(0));
    assert_eq!(id.transport, Some("PCIe".to_string()));
}

#[test]
fn nvme_identify_too_short_returns_none() {
    assert!(identity_from_nvme_identify(&[0u8; 10]).is_none());
}

#[test]
fn identify_needs_72_bytes() {
    assert!(identity_from_nvme_identify(&[b' '; 71]).is_none());
    let id = identity_from_nvme_identify(&[b' '; 72]).unwrap();
    assert_eq!(id.serial_number, None);
    assert_eq!(id.model, None);
    assert_eq!(id.firmware_revision, None);
    assert_eq!(id.rotation_rate, Some(0));
    assert_eq!(id.wwn, None);
    assert_eq!(id.capacity_bytes, None);
}

#[test]
fn identify_fields_are_trimmed_utf8() {
    let mut buf = vec![b' '; 72];
    // No-break space and tab in front, NUL behind.
    buf[4..10].copy_from_slice(b"\xc2\xa0\tA B");
    buf[23] = 0;
    // Not UTF-8.
    buf[24] = 0xff;
    // A character of two bytes.
    buf[64..66].copy_from_slice("\u{e9}".as_bytes());
    let id = identity_from_nvme_identify(&buf).unwrap();
    assert_eq!(id.serial_number, Some("A B             \0".to_string()));
    assert_eq!(id.model, None);
    assert_eq!(id.firmware_revision, Some("\u{e9}".to_string()));
}

#[test]
fn all_unicode_white_space_is_trimmed() {
    for space in [
        '\u{9}', '\u{a}', '\u{b}', '\u{c}', '\u{d}', '\u{20}', '\u{85}', '\u{a0}', '\u{1680}',
        '\u{2000}', '\u{200a}', '\u{2028}', '\u{2029}', '\u{202f}', '\u{205f}', '\u{3000}',
    ] {
        let mut buf = vec![b' '; 72];
        let text = format!("{space}x{space}");
        buf[24..24 + text.len()].copy_from_slice(text.as_bytes());
        let id = identity_from_nvme_identify(&buf).unwrap();
        assert_eq!(id.model, Some("x".to_string()));
    }
    for other in ['\u{8}', '\u{e}', '\u{1f}', '\u{84}', '\u{180e}', '\u{200b}', '\u{feff}'] {
        let mut buf = vec![b' '; 72];
        let text = format!("{other}x");
        buf[24..24 + text.len()].copy_from_slice(text.as_bytes());
        let id = identity_from_nvme_identify(&buf).unwrap();
        assert_eq!(id.model, Some(text));
    }
}

fn counted_page() -> Vec<u8> {
    (0..512u32).map(|i| (i % 251) as u8).collect()
}

#[test]
fn smart_page_needs_512_bytes() {
    assert!(DeviceHealth::from_nvme_smart(&[0u8; 511]).is_none());
    let h = DeviceHealth::from_nvme_smart(&[0u8; 512]).unwrap();
    assert!(h.is_healthy());
    assert_eq!(h.temperature_celsius, None);
    assert_eq!(h.available_spare_percent, Some(0));
    assert_eq!(h.media_errors, Some(0));
    assert!(h.identity.is_none());
    assert!(h.smart_attributes.is_empty());
}

#[test]
fn smart_page_counters_are_little_endian() {
    let page = counted_page();
    let h = DeviceHealth::from_nvme_smart(&page).unwrap();
    assert_eq!(h.critical_warning, 0);
    assert_eq!(h.temperature_celsius, Some(0x0201 - 273));
    assert_eq!(h.available_spare_percent, Some(3));
    assert_eq!(h.available_spare_threshold_percent, Some(4));
    assert_eq!(h.percentage_used, Some(5));
    assert_eq!(h.data_units_read, Some(0x2f2e2d2c2b2a29282726252423222120));
    assert_eq!(h.data_units_written, Some(0x3f3e3d3c3b3a39383736353433323130));
    assert_eq!(h.host_reads, Some(0x4f4e4d4c4b4a49484746454443424140));
    assert_eq!(h.host_writes, Some(0x5f5e5d5c5b5a59585756555453525150));
    assert_eq!(h.controller_busy_minutes, Some(0x6f6e6d6c6b6a69686766656463626160));
    assert_eq!(h.power_cycles, Some(0x7f7e7d7c7b7a79787776757473727170));
    assert_eq!(h.power_on_hours, Some(0x8f8e8d8c8b8a89888786858483828180));
    assert_eq!(h.unsafe_shutdowns, Some(0x9f9e9d9c9b9a99989796959493929190));
    assert_eq!(h.media_errors, Some(0xafaeadacabaaa9a8a7a6a5a4a3a2a1a0));
    assert_eq!(h.num_error_log_entries, Some(0xbfbebdbcbbbab9b8b7b6b5b4b3b2b1b0));
}

#[test]
fn largest_counter_is_read() {
    let mut page = vec![0u8; 512];
    page[32..48].fill(0xff);
    let h = DeviceHealth::from_nvme_smart(&page).unwrap();
    assert_eq!(h.data_units_read, Some(u128::MAX));
    assert_eq!(h.data_units_written, Some(0));
}

#[test]
fn counters_are_read_back() {
    for n in [0u128, 1, 255, 256, 0x0123456789abcdef, u128::MAX - 1] {
        let mut page = vec![0u8; 512];
        page[112..128].copy_from_slice(&n.to_le_bytes());
        let h = DeviceHealth::from_nvme_smart(&page).unwrap();
        assert_eq!(h.power_cycles, Some(n));
    }
}

#[test]
fn page_bytes_outside_the_fields_do_not_count() {
    let page = counted_page();
    let mut longer = page.clone();
    longer[6..32].fill(7);
    longer[192..].fill(7);
    longer.push(1);
    let a = DeviceHealth::from_nvme_smart(&page).unwrap();
    let b = DeviceHealth::from_nvme_smart(&longer).unwrap();
    assert_eq!(format!("{a:?}"), format!("{b:?}"));
}

#[test]
fn temperature_is_kelvin_less_273() {
    let celsius = |kelvin: u16| {
        let mut page = vec![0u8; 512];
        page[1..3].copy_from_slice(&kelvin.to_le_bytes());
        DeviceHealth::from_nvme_smart(&page).unwrap().temperature_celsius
    };
    assert_eq!(celsius(0), None);
    assert_eq!(celsius(1), Some(-272));
    assert_eq!(celsius(273), Some(0));
    assert_eq!(celsius(314), Some(41));
    assert_eq!(celsius(0x7fff), Some(32494));
    assert_eq!(celsius(0x8000), Some(32495));
    assert_eq!(celsius(0x8110), Some(32767));
    assert_eq!(celsius(0x8111), Some(-32768));
    assert_eq!(celsius(0xffff), Some(-274));
}

#[test]
fn each_warning_bit_has_its_condition() {
    let conditions = |critical_warning: u8| {
        let h = DeviceHealth {
            critical_warning,
            ..DeviceHealth::default()
        };
        (
            h.is_healthy(),
            h.spare_below_threshold(),
            h.temperature_critical(),
            h.reliability_degraded(),
            h.media_read_only(),
            h.volatile_backup_failed(),
        )
    };
    assert_eq!(conditions(0x00), (true, false, false, false, false, false));
    assert_eq!(conditions(0x01), (false, true, false, false, false, false));
    assert_eq!(conditions(0x02), (false, false, true, false, false, false));
    assert_eq!(conditions(0x04), (false, false, false, true, false, false));
    assert_eq!(conditions(0x08), (false, false, false, false, true, false));
    assert_eq!(conditions(0x10), (false, false, false, false, false, true));
    assert_eq!(conditions(0x20), (false, false, false, false, false, false));
    assert_eq!(conditions(0xff), (false, true, true, true, true, true));
}

#[test]
fn both_nvme_paths_agree() {
    let mut page = vec![0u8; 512];
    page[0] = 0x11;
    page[1..3].copy_from_slice(&314u16.to_le_bytes());
    page[3] = 100;
    page[4] = 10;
    page[5] = 3;
    for (i, offset) in (32..192).step_by(16).enumerate() {
        page[offset] = i as u8 + 1;
    }
    let raw = DeviceHealth::from_nvme_smart(&page).unwrap();
    let text = r#"{"nvme_smart_health_information_log": {"critical_warning": 17, "temperature": 41,
        "available_spare": 100, "available_spare_threshold": 10, "percentage_used": 3,
        "data_units_read": 1, "data_units_written": 2, "host_reads": 3, "host_writes": 4,
        "controller_busy_time": 5, "power_cycles": 6, "power_on_hours": 7, "unsafe_shutdowns": 8,
        "media_errors": 9, "num_err_log_entries": 10}}"#;
    let report = SmartctlReport::from_json(&serde_json::from_str(text).unwrap());
    let mut logged = parse_smartctl_report(&report);
    logged.identity = None;
    assert_eq!(format!("{raw:?}"), format!("{logged:?}"));
}

fn named(model: &str) -> DeviceIdentity {
    DeviceIdentity {
        model: Some(model.to_string()),
        capacity_bytes: Some(7),
        ..DeviceIdentity::default()
    }
}

#[test]
fn cache_gives_back_what_was_stored() {
    let mut cache = NvmeIdentityCache::new();
    assert!(cached_nvme_identity(&cache, "nvme0").is_none());
    cache_nvme_identity(&mut cache, "nvme0", named("a"));
    cache_nvme_identity(&mut cache, "nvme1", named("b"));
    let id = cached_nvme_identity(&cache, "nvme0").unwrap();
    assert_eq!(id.model, Some("a".to_string()));
    assert_eq!(id.capacity_bytes, Some(7));
    assert_eq!(id.serial_number, None);
    assert_eq!(
        cached_nvme_identity(&cache, "nvme1").unwrap().model,
        Some("b".to_string())
    );
    cache_nvme_identity(&mut cache, "nvme0", named("c"));
    assert_eq!(
        cached_nvme_identity(&cache, "nvme0").unwrap().model,
        Some("c".to_string())
    );
    assert_eq!(
        cached_nvme_identity(&cache, "nvme1").unwrap().model,
        Some("b".to_string())
    );
    assert!(cached_nvme_identity(&cache, "nvme").is_none());
}

#[test]
fn clones_are_equal() {
    let text = r#"{"model_name": "m", "ata_smart_attributes": {"table": [{"id": 1, "name": "n"}]}}"#;
    let h = device_health::parse_smartctl(&serde_json::from_str(text).unwrap());
    assert_eq!(format!("{:?}", h.clone()), format!("{h:?}"));
}

#[test]
fn every_field_of_a_page_shows() {
    let page = counted_page();
    let before = format!("{:?}", DeviceHealth::from_nvme_smart(&page).unwrap());
    for i in (0..6).chain(32..192) {
        let mut changed = page.clone();
        changed[i] ^= 1;
        let after = format!("{:?}", DeviceHealth::from_nvme_smart(&changed).unwrap());
        assert_ne!(before, after);
    }
}

#[test]
fn identify_reads_nothing_outside_its_fields() {
    let mut short = vec![b'x'; 72];
    let mut long = vec![b'x'; 4096];
    short[..4].fill(0xff);
    long[72..].fill(0xff);
    let a = identity_from_nvme_identify(&short).unwrap();
    let b = identity_from_nvme_identify(&long).unwrap();
    assert_eq!(a.serial_number, Some("x".repeat(20)));
    assert_eq!(format!("{a:?}"), format!("{b:?}"));
}
