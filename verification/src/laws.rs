//! What holds of the library as a whole.
//!
//! The laws are stated over the models that the contracts of the executable functions use.

use crate::cache::cached;
use crate::health::{flag, AttributeModel, HealthModel};
use crate::hex::{digit_chars, hex_digits, wwn_text, zero_padded};
use crate::identity::IdentityModel;
use crate::json::{parsed, Json};
use crate::nvme::{
    celsius, identify_data, le_value, lemma_le_value_fits, page_counter, page_kelvin, smart_page,
};
use crate::report::{report_of, EntryModel, NvmeLog, ReportModel};
use crate::smartctl::{
    as_celsius, as_counter, as_percent, as_u32, attribute_of, first_raw, first_set,
    health_of, identity_of, last_raw, or_zero, raw_of, run_outcome, CoreError, Errno,
};
use crate::text::{field_text, is_white_space, trimmed};
use vstd::prelude::*;
use vstd::utf8::*;

verus! {

/// A stored identity is what a later lookup of its name gives back.
pub proof fn law_cache_gives_back(
    entries: Map<Seq<char>, IdentityModel>,
    name: Seq<char>,
    identity: IdentityModel,
)
    ensures
        cached(entries.insert(name, identity), name) == Some(identity),
{
}

/// Storing an identity under one name leaves every other name as it was.
pub proof fn law_cache_keeps_others(
    entries: Map<Seq<char>, IdentityModel>,
    name: Seq<char>,
    identity: IdentityModel,
    other: Seq<char>,
)
    requires
        other != name,
    ensures
        cached(entries.insert(name, identity), other) == cached(entries, other),
{
}

/// Of two identities stored under one name the later one stays.
pub proof fn law_cache_last_wins(
    entries: Map<Seq<char>, IdentityModel>,
    name: Seq<char>,
    earlier: IdentityModel,
    later: IdentityModel,
)
    ensures
        entries.insert(name, earlier).insert(name, later) == entries.insert(name, later),
{
    assert(entries.insert(name, earlier).insert(name, later) =~= entries.insert(name, later));
}

/// A new cache knows no name.
pub proof fn law_cache_starts_empty(name: Seq<char>)
    ensures
        cached(Map::<Seq<char>, IdentityModel>::empty(), name) is None,
{
}

/// A device is healthy exactly when none of the eight critical-warning bits is set.
pub proof fn law_healthy_means_no_bit(health: HealthModel)
    ensures
        health.healthy() <==> {
            &&& !flag(health.critical_warning, 1)
            &&& !flag(health.critical_warning, 2)
            &&& !flag(health.critical_warning, 4)
            &&& !flag(health.critical_warning, 8)
            &&& !flag(health.critical_warning, 16)
            &&& !flag(health.critical_warning, 32)
            &&& !flag(health.critical_warning, 64)
            &&& !flag(health.critical_warning, 128)
        },
{
    let w = health.critical_warning;
    assert(w == 0 <==> w / 1 % 2 != 1 && w / 2 % 2 != 1 && w / 4 % 2 != 1 && w / 8 % 2 != 1 && w
        / 16 % 2 != 1 && w / 32 % 2 != 1 && w / 64 % 2 != 1 && w / 128 % 2 != 1) by (bit_vector);
}

/// A device that shows any of the five conditions is not healthy.
pub proof fn law_condition_excludes_healthy(health: HealthModel)
    requires
        health.spare_low() || health.too_hot() || health.degraded() || health.read_only()
            || health.backup_failed(),
    ensures
        !health.healthy(),
{
}

/// A device that has failed its own assessment is reported as degraded, whatever else the report
/// says, and so never as healthy.
pub proof fn law_failed_status_degrades(report: ReportModel)
    requires
        report.passed == Some(false),
    ensures
        health_of(report).degraded(),
        !health_of(report).healthy(),
{
}

/// A failed assessment touches the reliability bit only: the other bits are those of the NVMe log.
pub proof fn law_failed_status_keeps_other_bits(report: ReportModel)
    ensures
        ({
            let health = health_of(report);
            let logged = (or_zero(report.nvme.critical_warning) % 0x100) as u8;
            &&& health.spare_low() == flag(logged, 1)
            &&& health.too_hot() == flag(logged, 2)
            &&& health.degraded() == (flag(logged, 4) || report.passed == Some(false))
            &&& health.read_only() == flag(logged, 8)
            &&& health.backup_failed() == flag(logged, 16)
            &&& flag(health.critical_warning, 32) == flag(logged, 32)
            &&& flag(health.critical_warning, 64) == flag(logged, 64)
            &&& flag(health.critical_warning, 128) == flag(logged, 128)
        }),
{
}

/// Without a failed assessment and without warnings in the NVMe log a device is healthy.
pub proof fn law_healthy_without_warnings(report: ReportModel)
    requires
        report.passed != Some(false),
        or_zero(report.nvme.critical_warning) == 0,
    ensures
        health_of(report).healthy(),
{
}

/// What the table holds under an id comes from the first entry that has a raw value for it.
pub proof fn law_first_raw_is_first(table: Seq<EntryModel>, id: u64, other_id: u64, i: int)
    requires
        0 <= i < table.len(),
        raw_of(table[i], id, other_id) is Some,
        forall|k: int| 0 <= k < i ==> raw_of(#[trigger] table[k], id, other_id) is None,
    ensures
        first_raw(table, id, other_id) == raw_of(table[i], id, other_id),
    decreases table.len(),
{
    if i < table.len() - 1 {
        law_first_raw_is_first(table.drop_last(), id, other_id, i);
    } else {
        law_no_raw_no_reading(table.drop_last(), id, other_id);
    }
}

/// What the table holds under an id comes from the last entry that has a raw value for it.
pub proof fn law_last_raw_is_last(table: Seq<EntryModel>, id: u64, other_id: u64, i: int)
    requires
        0 <= i < table.len(),
        raw_of(table[i], id, other_id) is Some,
        forall|k: int| i < k < table.len() ==> raw_of(#[trigger] table[k], id, other_id) is None,
    ensures
        last_raw(table, id, other_id) == raw_of(table[i], id, other_id),
    decreases table.len(),
{
    if i < table.len() - 1 {
        assert(raw_of(table[table.len() - 1], id, other_id) is None);
        law_last_raw_is_last(table.drop_last(), id, other_id, i);
    }
}

/// A table without raw values under an id tells nothing about it.
pub proof fn law_no_raw_no_reading(table: Seq<EntryModel>, id: u64, other_id: u64)
    requires
        forall|k: int| 0 <= k < table.len() ==> raw_of(#[trigger] table[k], id, other_id) is None,
    ensures
        first_raw(table, id, other_id) is None,
        last_raw(table, id, other_id) is None,
    decreases table.len(),
{
    if table.len() > 0 {
        assert(raw_of(table[table.len() - 1], id, other_id) is None);
        assert forall|k: int| 0 <= k < table.drop_last().len() implies raw_of(
            #[trigger] table.drop_last()[k],
            id,
            other_id,
        ) is None by {
            assert(table.drop_last()[k] == table[k]);
        }
        law_no_raw_no_reading(table.drop_last(), id, other_id);
    }
}

/// The vendor attribute table fills in power-on hours, power cycles and the temperature only where
/// the report has no cleaner value for them: where it has one, no table changes it.
pub proof fn law_table_only_fills_in(report: ReportModel, table: Seq<EntryModel>)
    ensures
        ({
            let health = health_of(report);
            let with_table = health_of(ReportModel { ata_table: table, ..report });
            let hours = first_set(report.nvme.power_on_hours, report.power_on_hours);
            let cycles = first_set(report.nvme.power_cycles, report.power_cycle_count);
            let degrees = first_set(report.nvme.temperature, report.temperature);
            &&& hours is Some ==> {
                &&& with_table.power_on_hours == as_counter(hours)
                &&& with_table.power_on_hours == health.power_on_hours
            }
            &&& cycles is Some ==> {
                &&& with_table.power_cycles == as_counter(cycles)
                &&& with_table.power_cycles == health.power_cycles
            }
            &&& degrees is Some ==> {
                &&& with_table.temperature_celsius == as_celsius(degrees)
                &&& with_table.temperature_celsius == health.temperature_celsius
            }
        }),
{
}

/// The vendor attribute table has no say in the warnings, the identity and the readings that only
/// NVMe devices have.
pub proof fn law_table_leaves_the_rest(report: ReportModel, table: Seq<EntryModel>)
    ensures
        ({
            let health = health_of(report);
            let with_table = health_of(ReportModel { ata_table: table, ..report });
            with_table == HealthModel {
                temperature_celsius: with_table.temperature_celsius,
                power_cycles: with_table.power_cycles,
                power_on_hours: with_table.power_on_hours,
                media_errors: with_table.media_errors,
                num_error_log_entries: with_table.num_error_log_entries,
                smart_attributes: with_table.smart_attributes,
                ..health
            }
        }),
{
}

/// The grown defect list counts as media errors only where neither the table nor the NVMe log has
/// any, and then it does.
pub proof fn law_grown_defects_come_last(report: ReportModel)
    ensures
        ({
            let others = first_set(last_raw(report.ata_table, 5, 5), report.nvme.media_errors);
            &&& others is Some ==> health_of(report).media_errors == as_counter(others)
            &&& others is None ==> health_of(report).media_errors == as_counter(
                report.grown_defects,
            )
        }),
{
}

/// The attribute list has one attribute for each entry of the table, in the order of the table.
pub proof fn law_attributes_follow_the_table(report: ReportModel, i: int)
    ensures
        health_of(report).smart_attributes.len() == report.ata_table.len(),
        0 <= i < report.ata_table.len() ==> health_of(report).smart_attributes[i] == attribute_of(
            report.ata_table[i],
        ),
{
}

/// A report without a vendor attribute table, as SAS and NVMe devices have it, gives an empty
/// attribute list.
pub proof fn law_no_table_no_attributes(doc: Json)
    requires
        match doc.at(seq!["ata_smart_attributes"@, "table"@]) {
            Some(table) => !(table is Array),
            None => true,
        },
    ensures
        health_of(report_of(doc)).smart_attributes == Seq::<AttributeModel>::empty(),
{
    assert(health_of(report_of(doc)).smart_attributes =~= Seq::empty());
}

/// Every report gives an identity, and it rests on the inventory data alone: readings, warnings
/// and tables do not change it.
pub proof fn law_identity_is_uniform(report: ReportModel, other: ReportModel)
    requires
        other == (ReportModel {
            passed: other.passed,
            temperature: other.temperature,
            power_on_hours: other.power_on_hours,
            power_cycle_count: other.power_cycle_count,
            nvme: other.nvme,
            ata_table: other.ata_table,
            grown_defects: other.grown_defects,
            ..report
        }),
    ensures
        health_of(report).identity == Some(identity_of(report)),
        health_of(other).identity == health_of(report).identity,
{
}

/// What a report does not hold stays unset.
pub proof fn law_unreported_stays_unset(report: ReportModel)
    requires
        report.nvme == NvmeLog::unset(),
        report.ata_table.len() == 0,
        report.passed is None,
        report.temperature is None,
        report.power_on_hours is None,
        report.power_cycle_count is None,
        report.grown_defects is None,
    ensures
        health_of(report) == (HealthModel {
            identity: Some(identity_of(report)),
            ..HealthModel::unset()
        }),
{
    assert(health_of(report).smart_attributes =~= Seq::empty());
}

/// Readings within the width in which they are kept are kept as they are.
pub proof fn law_readings_in_range_are_kept(n: u64, degrees: i64)
    ensures
        n <= u8::MAX ==> as_percent(Some(n)) == Some(n as u8),
        n <= u32::MAX ==> as_u32(Some(n)) == Some(n as u32),
        as_counter(Some(n)) == Some(n as u128),
        i16::MIN <= degrees <= i16::MAX ==> as_celsius(Some(degrees)) == Some(degrees as i16),
{
}

/// There is a health exactly where smartctl could be run, has written JSON, and names a device in
/// it; each of the three failures has an error of its own.
pub proof fn law_health_or_error(stdout: Option<Seq<u8>>)
    ensures
        run_outcome(stdout) is Ok <==> {
            &&& stdout is Some
            &&& parsed(stdout->0) is Some
            &&& parsed(stdout->0)->0.member("device"@) is Some
        },
        run_outcome(stdout) == Err::<HealthModel, CoreError>(
            CoreError::NotSupported { source: Errno::ENOENT },
        ) <==> stdout is None,
        run_outcome(stdout) == Err::<HealthModel, CoreError>(
            CoreError::NotSupported { source: Errno::EIO },
        ) <==> stdout is Some && parsed(stdout->0) is None,
        run_outcome(stdout) == Err::<HealthModel, CoreError>(
            CoreError::NotSupported { source: Errno::ENXIO },
        ) <==> {
            &&& stdout is Some
            &&& parsed(stdout->0) is Some
            &&& parsed(stdout->0)->0.member("device"@) is None
        },
{
}

/// The health that raw NVMe data gives is the one that smartctl's NVMe log gives for the same
/// numbers, but for the identity, which a log page does not hold.
pub proof fn law_nvme_paths_agree(page: Seq<u8>, report: ReportModel)
    requires
        page.len() >= 512,
        0 < page_kelvin(page),
        page_kelvin(page) - 273 <= i16::MAX,
        report.passed != Some(false),
        report.ata_table.len() == 0,
        report.nvme.critical_warning == Some(page[0] as u64),
        report.nvme.temperature == Some((page_kelvin(page) - 273) as i64),
        report.nvme.available_spare == Some(page[3] as u64),
        report.nvme.available_spare_threshold == Some(page[4] as u64),
        report.nvme.percentage_used == Some(page[5] as u64),
        as_counter(report.nvme.data_units_read) == page_counter(page, 32),
        as_counter(report.nvme.data_units_written) == page_counter(page, 48),
        as_counter(report.nvme.host_reads) == page_counter(page, 64),
        as_counter(report.nvme.host_writes) == page_counter(page, 80),
        as_counter(report.nvme.controller_busy_time) == page_counter(page, 96),
        as_counter(report.nvme.power_cycles) == page_counter(page, 112),
        as_counter(report.nvme.power_on_hours) == page_counter(page, 128),
        as_counter(report.nvme.unsafe_shutdowns) == page_counter(page, 144),
        as_counter(report.nvme.media_errors) == page_counter(page, 160),
        as_counter(report.nvme.num_err_log_entries) == page_counter(page, 176),
    ensures
        health_of(report) == (HealthModel {
            identity: Some(identity_of(report)),
            ..smart_page(page)
        }),
{
    assert(health_of(report).smart_attributes =~= Seq::empty());
}

/// The `len` bytes that hold `n`, least significant byte first.
pub open spec fn le_bytes(n: nat, len: nat) -> Seq<u8>
    decreases len,
{
    if len == 0 {
        Seq::empty()
    } else {
        seq![(n % 256) as u8] + le_bytes(n / 256, (len - 1) as nat)
    }
}

/// A 16-byte counter that a device writes into a log page is the one that is read from it.
pub proof fn law_counter_round_trip(page: Seq<u8>, offset: int, n: u128)
    requires
        0 <= offset,
        offset + 16 <= page.len(),
        page.subrange(offset, offset + 16) == le_bytes(n as nat, 16),
    ensures
        page_counter(page, offset) == Some(n),
{
    reveal_with_fuel(vstd::arithmetic::power::pow, 17);
    lemma_le_round_trip(n as nat, 16);
}

proof fn lemma_le_round_trip(n: nat, len: nat)
    requires
        n < vstd::arithmetic::power::pow(256, len),
    ensures
        le_value(le_bytes(n, len)) == n,
    decreases len,
{
    reveal(vstd::arithmetic::power::pow);
    if len > 0 {
        let rest = (len - 1) as nat;
        lemma_le_round_trip(n / 256, rest);
        assert(le_bytes(n, len).drop_first() =~= le_bytes(n / 256, rest));
    }
}

/// Bytes of one length that hold the same number are the same.
proof fn lemma_le_value_injective(a: Seq<u8>, b: Seq<u8>)
    requires
        a.len() == b.len(),
        le_value(a) == le_value(b),
    ensures
        a == b,
    decreases a.len(),
{
    if a.len() > 0 {
        lemma_le_value_injective(a.drop_first(), b.drop_first());
        assert forall|i: int| 0 <= i < a.len() implies a[i] == b[i] by {
            if i > 0 {
                assert(a[i] == a.drop_first()[i - 1]);
                assert(b[i] == b.drop_first()[i - 1]);
            }
        }
    }
    assert(a =~= b);
}

/// Only the bytes from 0 to 5 and from 32 to 191 of a log page count.
pub proof fn law_page_reads_its_fields(page: Seq<u8>, other: Seq<u8>)
    requires
        page.len() >= 512,
        other.len() >= 512,
        page.take(6) == other.take(6),
        page.subrange(32, 192) == other.subrange(32, 192),
    ensures
        smart_page(page) == smart_page(other),
{
    assert forall|i: int| 0 <= i < 6 implies #[trigger] page[i] == other[i] by {
        assert(page[i] == page.take(6)[i]);
        assert(other[i] == other.take(6)[i]);
    }
    assert(page.subrange(1, 3) =~= other.subrange(1, 3));
    assert forall|from: int, to: int| 32 <= from <= to <= 192 implies #[trigger] page.subrange(
        from,
        to,
    ) == other.subrange(from, to) by {
        assert(page.subrange(from, to) =~= page.subrange(32, 192).subrange(from - 32, to - 32));
        assert(other.subrange(from, to) =~= other.subrange(32, 192).subrange(from - 32, to - 32));
    }
}

proof fn lemma_same_counter(page: Seq<u8>, other: Seq<u8>, offset: int)
    requires
        0 <= offset,
        offset + 16 <= page.len(),
        offset + 16 <= other.len(),
        page_counter(page, offset) == page_counter(other, offset),
    ensures
        page.subrange(offset, offset + 16) == other.subrange(offset, offset + 16),
{
    lemma_le_value_fits(page.subrange(offset, offset + 16));
    lemma_le_value_fits(other.subrange(offset, offset + 16));
    lemma_le_value_injective(
        page.subrange(offset, offset + 16),
        other.subrange(offset, offset + 16),
    );
}

/// Nothing of the fields of a log page is lost: two pages that read the same hold the same bytes
/// in them.
pub proof fn law_page_fields_are_kept(page: Seq<u8>, other: Seq<u8>)
    requires
        page.len() >= 512,
        other.len() >= 512,
        smart_page(page) == smart_page(other),
    ensures
        page.take(6) == other.take(6),
        page.subrange(32, 192) == other.subrange(32, 192),
{
    lemma_le_value_fits(page.subrange(1, 3));
    lemma_le_value_fits(other.subrange(1, 3));
    lemma_le_value_injective(page.subrange(1, 3), other.subrange(1, 3));
    assert forall|i: int| 0 <= i < 6 implies page[i] == other[i] by {
        if 1 <= i < 3 {
            assert(page[i] == page.subrange(1, 3)[i - 1]);
            assert(other[i] == other.subrange(1, 3)[i - 1]);
        }
    }
    assert(page.take(6) =~= other.take(6));
    lemma_same_counter(page, other, 32);
    lemma_same_counter(page, other, 48);
    lemma_same_counter(page, other, 64);
    lemma_same_counter(page, other, 80);
    lemma_same_counter(page, other, 96);
    lemma_same_counter(page, other, 112);
    lemma_same_counter(page, other, 128);
    lemma_same_counter(page, other, 144);
    lemma_same_counter(page, other, 160);
    lemma_same_counter(page, other, 176);
    assert forall|i: int| 32 <= i < 192 implies page[i] == other[i] by {
        let offset = i / 16 * 16;
        assert(page.subrange(offset, offset + 16)[i - offset] == page[i]);
        assert(other.subrange(offset, offset + 16)[i - offset] == other[i]);
        assert(offset == 32 || offset == 48 || offset == 64 || offset == 80 || offset == 96
            || offset == 112 || offset == 128 || offset == 144 || offset == 160 || offset == 176);
    }
    assert(page.subrange(32, 192) =~= other.subrange(32, 192));
}

/// Degrees Celsius are kelvin less 273 wherever that fits, and a device that reports 0 kelvin
/// reports no temperature.
pub proof fn law_celsius(kelvin: nat)
    ensures
        celsius(0) is None,
        0 < kelvin && kelvin - 273 <= i16::MAX ==> celsius(kelvin) == Some((kelvin - 273) as i16),
{
}

/// Only the bytes from 4 to 71 of an Identify Controller data structure count.
pub proof fn law_identify_reads_its_fields(data: Seq<u8>, other: Seq<u8>)
    requires
        data.len() >= 72,
        other.len() >= 72,
        data.subrange(4, 72) == other.subrange(4, 72),
    ensures
        identify_data(data) == identify_data(other),
{
    assert forall|from: int, to: int| 4 <= from <= to <= 72 implies #[trigger] data.subrange(
        from,
        to,
    ) == other.subrange(from, to) by {
        assert(data.subrange(from, to) =~= data.subrange(4, 72).subrange(from - 4, to - 4));
        assert(other.subrange(from, to) =~= other.subrange(4, 72).subrange(from - 4, to - 4));
    }
}

/// Text that is read from a field is never empty and has no white space at its ends.
pub proof fn law_field_text_is_trimmed(field: Seq<u8>)
    ensures
        field_text(field) matches Some(text) ==> {
            &&& text.len() > 0
            &&& !is_white_space(text.first())
            &&& !is_white_space(text.last())
        },
{
    lemma_trimmed(decode_utf8(field));
}

proof fn lemma_trimmed(s: Seq<char>)
    ensures
        trimmed(s).len() > 0 ==> !is_white_space(trimmed(s).first()) && !is_white_space(
            trimmed(s).last(),
        ),
    decreases s.len(),
{
    if s.len() > 0 {
        if is_white_space(s.first()) {
            lemma_trimmed(s.drop_first());
        } else if is_white_space(s.last()) {
            lemma_trimmed(s.drop_last());
        }
    }
}

/// That trimming leaves the characters from `from` to before `to`, and that all others are white
/// space.
pub open spec fn trims_to(s: Seq<char>, from: int, to: int) -> bool {
    &&& 0 <= from <= to <= s.len()
    &&& trimmed(s) == s.subrange(from, to)
    &&& forall|i: int| 0 <= i < from || to <= i < s.len() ==> is_white_space(#[trigger] s[i])
}

proof fn lemma_same_middle(s: Seq<char>, rest: Seq<char>, skipped: int, from: int, to: int)
    requires
        0 <= skipped,
        0 <= from <= to <= rest.len(),
        rest == s.subrange(skipped, skipped + rest.len()),
        skipped + rest.len() <= s.len(),
    ensures
        s.subrange(skipped + from, skipped + to) == rest.subrange(from, to),
{
    assert(s.subrange(skipped + from, skipped + to) =~= rest.subrange(from, to));
}

#[verifier::spinoff_prover]
proof fn lemma_trims_front(s: Seq<char>, from: int, to: int)
    requires
        s.len() > 0,
        is_white_space(s.first()),
        trims_to(s.drop_first(), from, to),
    ensures
        trims_to(s, from + 1, to + 1),
{
    let rest = s.drop_first();
    assert(trimmed(s) == trimmed(rest));
    lemma_same_middle(s, rest, 1, from, to);
    assert forall|i: int| 0 <= i < from + 1 || to + 1 <= i < s.len() implies is_white_space(
        #[trigger] s[i],
    ) by {
        if i > 0 {
            assert(is_white_space(rest[i - 1]));
            assert(s[i] == rest[i - 1]);
        } else {
            assert(s[i] == s.first());
        }
    }
}

#[verifier::spinoff_prover]
proof fn lemma_trims_back(s: Seq<char>, from: int, to: int)
    requires
        s.len() > 0,
        !is_white_space(s.first()),
        is_white_space(s.last()),
        trims_to(s.drop_last(), from, to),
    ensures
        trims_to(s, from, to),
{
    let rest = s.drop_last();
    assert(trimmed(s) == trimmed(rest));
    lemma_same_middle(s, rest, 0, from, to);
    assert forall|i: int| 0 <= i < from || to <= i < s.len() implies is_white_space(
        #[trigger] s[i],
    ) by {
        if i < rest.len() {
            assert(is_white_space(rest[i]));
            assert(s[i] == rest[i]);
        } else {
            assert(s[i] == s.last());
        }
    }
}

proof fn lemma_trims_nothing(s: Seq<char>)
    requires
        s.len() > 0 ==> !is_white_space(s.first()) && !is_white_space(s.last()),
    ensures
        trims_to(s, 0, s.len() as int),
{
    assert(s.subrange(0, s.len() as int) =~= s);
}

/// Trimming cuts white space off the two ends and nothing else.
pub proof fn law_trimming_cuts_white_space_only(s: Seq<char>)
    ensures
        exists|from: int, to: int| trims_to(s, from, to),
    decreases s.len(),
{
    if s.len() > 0 && is_white_space(s.first()) {
        law_trimming_cuts_white_space_only(s.drop_first());
        let (from, to) = choose|from: int, to: int| trims_to(s.drop_first(), from, to);
        lemma_trims_front(s, from, to);
    } else if s.len() > 0 && is_white_space(s.last()) {
        law_trimming_cuts_white_space_only(s.drop_last());
        let (from, to) = choose|from: int, to: int| trims_to(s.drop_last(), from, to);
        lemma_trims_back(s, from, to);
    } else {
        lemma_trims_nothing(s);
    }
}

/// `text` in a field, with `padding` spaces behind it.
pub open spec fn space_padded(text: Seq<char>, padding: nat) -> Seq<char> {
    text + Seq::new(padding, |i: int| ' ')
}

/// ASCII text that is padded with spaces is read from its field as it was before the padding.
pub proof fn law_padded_text_is_read_back(text: Seq<char>, padding: nat)
    requires
        is_ascii_chars(text),
        text.len() > 0,
        !is_white_space(text.first()),
        !is_white_space(text.last()),
    ensures
        field_text(Seq::new(text.len() + padding, |i: int| space_padded(text, padding)[i] as u8))
            == Some(text),
{
    let padded = space_padded(text, padding);
    assert(is_ascii_chars(padded));
    is_ascii_chars_encode_utf8(padded);
    encode_utf8_valid_utf8(padded);
    encode_utf8_decode_utf8(padded);
    assert(encode_utf8(padded) =~= Seq::new(text.len() + padding, |i: int| padded[i] as u8));
    lemma_padding_is_trimmed(text, padding);
}

proof fn lemma_padding_is_trimmed(text: Seq<char>, padding: nat)
    requires
        text.len() > 0,
        !is_white_space(text.first()),
        !is_white_space(text.last()),
    ensures
        trimmed(space_padded(text, padding)) == text,
    decreases padding,
{
    let padded = space_padded(text, padding);
    if padding > 0 {
        assert(padded.first() == text.first());
        assert(padded.drop_last() =~= space_padded(text, (padding - 1) as nat));
        lemma_padding_is_trimmed(text, (padding - 1) as nat);
    } else {
        assert(padded =~= text);
    }
}

/// A field of spaces holds no text.
pub proof fn law_blank_field_is_unset(field: Seq<u8>)
    requires
        forall|i: int| 0 <= i < field.len() ==> #[trigger] field[i] == 0x20,
    ensures
        field_text(field) is None,
{
    let blanks = Seq::new(field.len(), |i: int| ' ');
    is_ascii_chars_encode_utf8(blanks);
    encode_utf8_decode_utf8(blanks);
    assert(encode_utf8(blanks) =~= field);
    lemma_blanks_are_trimmed(field.len());
}

proof fn lemma_blanks_are_trimmed(n: nat)
    ensures
        trimmed(Seq::new(n, |i: int| ' ')) == Seq::<char>::empty(),
    decreases n,
{
    let blanks = Seq::new(n, |i: int| ' ');
    if n > 0 {
        assert(blanks.drop_first() =~= Seq::new((n - 1) as nat, |i: int| ' '));
        lemma_blanks_are_trimmed((n - 1) as nat);
    }
    assert(n == 0 ==> blanks =~= Seq::<char>::empty());
}

/// The last `width` hexadecimal digits of `n`.
spec fn low_digits(n: nat, width: nat) -> Seq<char>
    decreases width,
{
    if width == 0 {
        Seq::empty()
    } else {
        low_digits(n / 16, (width - 1) as nat).push(digit_chars()[(n % 16) as int])
    }
}

proof fn lemma_low_digits_len(n: nat, width: nat)
    ensures
        low_digits(n, width).len() == width,
    decreases width,
{
    if width > 0 {
        lemma_low_digits_len(n / 16, (width - 1) as nat);
    }
}

proof fn lemma_padded_is_low_digits(n: nat, width: nat)
    requires
        width > 0,
        n < vstd::arithmetic::power::pow(16, width),
    ensures
        zero_padded(hex_digits(n), width) == low_digits(n, width),
    decreases width,
{
    reveal(vstd::arithmetic::power::pow);
    let rest = (width - 1) as nat;
    let padded = zero_padded(hex_digits(n), width);
    if rest == 0 {
        assert(vstd::arithmetic::power::pow(16, 0) == 1);
        assert(n < 16);
        assert(low_digits(n / 16, 0) =~= Seq::empty());
        assert(padded =~= low_digits(n, width));
    } else {
        lemma_padded_is_low_digits(n / 16, rest);
        if n < 16 {
            assert(hex_digits(0) =~= seq!['0']);
        }
        assert(padded =~= zero_padded(hex_digits(n / 16), rest).push(
            digit_chars()[(n % 16) as int],
        ));
    }
}

proof fn lemma_digits_differ(a: int, b: int)
    requires
        0 <= a < 16,
        0 <= b < 16,
        digit_chars()[a] == digit_chars()[b],
    ensures
        a == b,
{
}

proof fn lemma_low_digits_injective(n: nat, m: nat, width: nat)
    requires
        n < vstd::arithmetic::power::pow(16, width),
        m < vstd::arithmetic::power::pow(16, width),
        low_digits(n, width) == low_digits(m, width),
    ensures
        n == m,
    decreases width,
{
    reveal(vstd::arithmetic::power::pow);
    if width > 0 {
        let rest = (width - 1) as nat;
        assert(low_digits(n, width).drop_last() =~= low_digits(n / 16, rest));
        assert(low_digits(m, width).drop_last() =~= low_digits(m / 16, rest));
        assert(low_digits(n, width).last() == digit_chars()[(n % 16) as int]);
        assert(low_digits(m, width).last() == digit_chars()[(m % 16) as int]);
        lemma_digits_differ((n % 16) as int, (m % 16) as int);
        lemma_low_digits_injective(n / 16, m / 16, rest);
    }
}

proof fn lemma_one_digit(n: nat)
    ensures
        hex_digits(n).len() >= 1,
        hex_digits(n).len() == 1 <==> n < 16,
    decreases n,
{
    if n >= 16 {
        lemma_one_digit(n / 16);
        assert(hex_digits(n).len() == hex_digits(n / 16).len() + 1);
    }
}

proof fn lemma_hex_digits_injective(n: nat, m: nat)
    requires
        hex_digits(n) == hex_digits(m),
    ensures
        n == m,
    decreases n,
{
    if n < 16 && m < 16 {
        assert(hex_digits(n)[0] == digit_chars()[n as int]);
        assert(hex_digits(m)[0] == digit_chars()[m as int]);
        lemma_digits_differ(n as int, m as int);
    } else if n >= 16 && m >= 16 {
        assert(hex_digits(n).drop_last() =~= hex_digits(n / 16));
        assert(hex_digits(m).drop_last() =~= hex_digits(m / 16));
        assert(hex_digits(n).last() == digit_chars()[(n % 16) as int]);
        assert(hex_digits(m).last() == digit_chars()[(m % 16) as int]);
        lemma_digits_differ((n % 16) as int, (m % 16) as int);
        lemma_hex_digits_injective(n / 16, m / 16);
    } else {
        lemma_one_digit(n);
        lemma_one_digit(m);
    }
}

/// A world wide name whose parts are within 4, 24 and 40 bits has 17 digits.
pub proof fn law_wwn_length(naa: u64, oui: u64, id: u64)
    requires
        naa < 0x10,
        oui < 0x100_0000,
        id < 0x100_0000_0000,
    ensures
        wwn_text(naa, oui, id).len() == 17,
{
    reveal_with_fuel(vstd::arithmetic::power::pow, 11);
    lemma_padded_is_low_digits(oui as nat, 6);
    lemma_padded_is_low_digits(id as nat, 10);
    lemma_low_digits_len(oui as nat, 6);
    lemma_low_digits_len(id as nat, 10);
}

/// A world wide name tells its parts: with the vendor's identifier within 24 bits and its number
/// within 40, two names are the same only where all three parts are.
pub proof fn law_wwn_is_unambiguous(
    naa: u64,
    oui: u64,
    id: u64,
    other_naa: u64,
    other_oui: u64,
    other_id: u64,
)
    requires
        oui < 0x100_0000,
        id < 0x100_0000_0000,
        other_oui < 0x100_0000,
        other_id < 0x100_0000_0000,
        wwn_text(naa, oui, id) == wwn_text(other_naa, other_oui, other_id),
    ensures
        naa == other_naa,
        oui == other_oui,
        id == other_id,
{
    reveal_with_fuel(vstd::arithmetic::power::pow, 11);
    lemma_padded_is_low_digits(oui as nat, 6);
    lemma_padded_is_low_digits(id as nat, 10);
    lemma_padded_is_low_digits(other_oui as nat, 6);
    lemma_padded_is_low_digits(other_id as nat, 10);
    lemma_low_digits_len(oui as nat, 6);
    lemma_low_digits_len(id as nat, 10);
    lemma_low_digits_len(other_oui as nat, 6);
    lemma_low_digits_len(other_id as nat, 10);
    let a = wwn_text(naa, oui, id);
    let b = wwn_text(other_naa, other_oui, other_id);
    let n = a.len() as int;
    assert(hex_digits(naa as nat) =~= a.subrange(0, n - 16));
    assert(hex_digits(other_naa as nat) =~= b.subrange(0, n - 16));
    assert(low_digits(oui as nat, 6) =~= a.subrange(n - 16, n - 10));
    assert(low_digits(other_oui as nat, 6) =~= b.subrange(n - 16, n - 10));
    assert(low_digits(id as nat, 10) =~= a.subrange(n - 10, n));
    assert(low_digits(other_id as nat, 10) =~= b.subrange(n - 10, n));
    lemma_hex_digits_injective(naa as nat, other_naa as nat);
    lemma_low_digits_injective(oui as nat, other_oui as nat, 6);
    lemma_low_digits_injective(id as nat, other_id as nat, 10);
}

} // verus!
