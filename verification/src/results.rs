//! What comes back from the library's functions, field by field.
//!
//! Each law speaks of a call: of the arguments that went in and of the value that came out. They
//! say what a caller sees in that value, down to single bytes, digits and table rows.

use crate::cache::{cache_nvme_identity, cached_nvme_identity, NvmeIdentityCache};
use crate::health::{DeviceHealth, SmartAttribute};
use crate::hex::{digit_chars, hex_digits, wwn_text, zero_padded};
use crate::identity::DeviceIdentity;
use crate::json::{
    elements_at, json_of, lemma_one_key, lemma_two_keys, parsed, signed_at, text_at, unsigned_at,
    Json,
};
use crate::laws::{
    law_field_text_is_trimmed, law_first_raw_is_first, law_last_raw_is_last,
    law_no_raw_no_reading, law_padded_text_is_read_back, law_trimming_cuts_white_space_only,
    space_padded, trims_to,
};
use crate::nvme::{identity_from_nvme_identify, le_value, lemma_le_value_fits, page_counter};
use crate::report::{entry_of, AtaEntry, NvmeLog, SmartctlReport};
use crate::smartctl::{
    attribute_of, first_raw, health_from_json, identity_of, last_raw, parse_smartctl,
    parse_smartctl_identity, parse_smartctl_report, raw_of, read_device_health, smartctl_args,
    CoreError, Errno,
};
use crate::text::{field_text, trimmed};
use serde_json::Value;
use vstd::arithmetic::div_mod::lemma_div_denominator;
use vstd::arithmetic::power::{lemma_pow_positive, pow};
use vstd::prelude::*;
use vstd::utf8::*;

verus! {

/// Two optional texts that read the same.
pub open spec fn same_text(a: Option<String>, b: Option<String>) -> bool {
    match (a, b) {
        (Some(x), Some(y)) => x@ == y@,
        (None, None) => true,
        _ => false,
    }
}

/// Two identities that agree in every field.
pub open spec fn same_identity(a: DeviceIdentity, b: DeviceIdentity) -> bool {
    &&& same_text(a.model, b.model)
    &&& same_text(a.model_family, b.model_family)
    &&& same_text(a.serial_number, b.serial_number)
    &&& same_text(a.firmware_revision, b.firmware_revision)
    &&& same_text(a.wwn, b.wwn)
    &&& a.capacity_bytes == b.capacity_bytes
    &&& a.logical_sector_size == b.logical_sector_size
    &&& a.physical_sector_size == b.physical_sector_size
    &&& a.rotation_rate == b.rotation_rate
    &&& same_text(a.form_factor, b.form_factor)
    &&& same_text(a.transport, b.transport)
    &&& same_text(a.link_speed, b.link_speed)
}

/// Two attributes that agree in every field.
pub open spec fn same_attribute(a: SmartAttribute, b: SmartAttribute) -> bool {
    &&& a.id == b.id
    &&& a.name@ == b.name@
    &&& a.value == b.value
    &&& a.worst == b.worst
    &&& a.threshold == b.threshold
    &&& a.raw_value == b.raw_value
}

/// Two healths that agree in every field.
pub open spec fn same_health(a: DeviceHealth, b: DeviceHealth) -> bool {
    &&& a.critical_warning == b.critical_warning
    &&& a.temperature_celsius == b.temperature_celsius
    &&& a.available_spare_percent == b.available_spare_percent
    &&& a.available_spare_threshold_percent == b.available_spare_threshold_percent
    &&& a.percentage_used == b.percentage_used
    &&& a.data_units_read == b.data_units_read
    &&& a.data_units_written == b.data_units_written
    &&& a.host_reads == b.host_reads
    &&& a.host_writes == b.host_writes
    &&& a.controller_busy_minutes == b.controller_busy_minutes
    &&& a.power_cycles == b.power_cycles
    &&& a.power_on_hours == b.power_on_hours
    &&& a.unsafe_shutdowns == b.unsafe_shutdowns
    &&& a.media_errors == b.media_errors
    &&& a.num_error_log_entries == b.num_error_log_entries
    &&& match (a.identity, b.identity) {
        (Some(x), Some(y)) => same_identity(x, y),
        (None, None) => true,
        _ => false,
    }
    &&& a.smart_attributes@.len() == b.smart_attributes@.len()
    &&& forall|i: int|
        0 <= i < a.smart_attributes@.len() ==> same_attribute(
            #[trigger] a.smart_attributes@[i],
            b.smart_attributes@[i],
        )
}

proof fn lemma_same_health(a: DeviceHealth, b: DeviceHealth)
    requires
        a@ == b@,
    ensures
        same_health(a, b),
{
    assert(a@.smart_attributes.len() == a.smart_attributes@.len());
    assert(b@.smart_attributes.len() == b.smart_attributes@.len());
    assert forall|i: int| 0 <= i < a.smart_attributes@.len() implies same_attribute(
        #[trigger] a.smart_attributes@[i],
        b.smart_attributes@[i],
    ) by {
        assert(a@.smart_attributes[i] == b@.smart_attributes[i]);
        assert(a@.smart_attributes[i] == a.smart_attributes@[i]@);
        assert(b@.smart_attributes[i] == b.smart_attributes@[i]@);
    }
}

/// Copies agree with what they were made from, in every field.
pub proof fn law_clones_are_the_same(
    health: &DeviceHealth,
    health_copy: DeviceHealth,
    identity: &DeviceIdentity,
    identity_copy: DeviceIdentity,
    attribute: &SmartAttribute,
    attribute_copy: SmartAttribute,
)
    requires
        call_ensures(<DeviceHealth as Clone>::clone, (health,), health_copy),
        call_ensures(<DeviceIdentity as Clone>::clone, (identity,), identity_copy),
        call_ensures(<SmartAttribute as Clone>::clone, (attribute,), attribute_copy),
    ensures
        same_health(*health, health_copy),
        same_identity(*identity, identity_copy),
        same_attribute(*attribute, attribute_copy),
{
    lemma_same_health(*health, health_copy);
}

/// By default nothing is known of a device: no field is set, no warning bit, no attribute.
pub proof fn law_defaults_are_unset(health: DeviceHealth, identity: DeviceIdentity, log: NvmeLog)
    requires
        call_ensures(<DeviceHealth as Default>::default, (), health),
        call_ensures(<DeviceIdentity as Default>::default, (), identity),
        call_ensures(<NvmeLog as Default>::default, (), log),
    ensures
        health.critical_warning == 0,
        health.temperature_celsius is None,
        health.available_spare_percent is None,
        health.available_spare_threshold_percent is None,
        health.percentage_used is None,
        health.data_units_read is None,
        health.data_units_written is None,
        health.host_reads is None,
        health.host_writes is None,
        health.controller_busy_minutes is None,
        health.power_cycles is None,
        health.power_on_hours is None,
        health.unsafe_shutdowns is None,
        health.media_errors is None,
        health.num_error_log_entries is None,
        health.identity is None,
        health.smart_attributes@.len() == 0,
        identity.model is None,
        identity.model_family is None,
        identity.serial_number is None,
        identity.firmware_revision is None,
        identity.wwn is None,
        identity.capacity_bytes is None,
        identity.logical_sector_size is None,
        identity.physical_sector_size is None,
        identity.rotation_rate is None,
        identity.form_factor is None,
        identity.transport is None,
        identity.link_speed is None,
        log.critical_warning is None,
        log.temperature is None,
        log.available_spare is None,
        log.available_spare_threshold is None,
        log.percentage_used is None,
        log.data_units_read is None,
        log.data_units_written is None,
        log.host_reads is None,
        log.host_writes is None,
        log.controller_busy_time is None,
        log.power_cycles is None,
        log.power_on_hours is None,
        log.unsafe_shutdowns is None,
        log.media_errors is None,
        log.num_err_log_entries is None,
{
    assert(health@.smart_attributes.len() == 0);
    assert(health@.identity is None);
}

/// Each condition is one bit of the critical-warning byte, and the device is healthy where the
/// whole byte is 0.
pub proof fn law_conditions_are_bits(
    health: &DeviceHealth,
    healthy: bool,
    spare: bool,
    temperature: bool,
    reliability: bool,
    read_only: bool,
    backup: bool,
)
    requires
        call_ensures(DeviceHealth::is_healthy, (health,), healthy),
        call_ensures(DeviceHealth::spare_below_threshold, (health,), spare),
        call_ensures(DeviceHealth::temperature_critical, (health,), temperature),
        call_ensures(DeviceHealth::reliability_degraded, (health,), reliability),
        call_ensures(DeviceHealth::media_read_only, (health,), read_only),
        call_ensures(DeviceHealth::volatile_backup_failed, (health,), backup),
    ensures
        healthy <==> health.critical_warning == 0,
        spare <==> health.critical_warning & 0x01 != 0,
        temperature <==> health.critical_warning & 0x02 != 0,
        reliability <==> health.critical_warning & 0x04 != 0,
        read_only <==> health.critical_warning & 0x08 != 0,
        backup <==> health.critical_warning & 0x10 != 0,
{
    let w = health.critical_warning;
    assert((w & 0x01 != 0) == (w / 0x01 % 2 == 1)) by (bit_vector);
    assert((w & 0x02 != 0) == (w / 0x02 % 2 == 1)) by (bit_vector);
    assert((w & 0x04 != 0) == (w / 0x04 % 2 == 1)) by (bit_vector);
    assert((w & 0x08 != 0) == (w / 0x08 % 2 == 1)) by (bit_vector);
    assert((w & 0x10 != 0) == (w / 0x10 % 2 == 1)) by (bit_vector);
}

/// A lookup gives back what was stored under its name last, whatever it is and whatever the name;
/// names under which nothing was stored are answered as before.
pub proof fn law_lookup_after_store(
    cache: &mut NvmeIdentityCache,
    name: &str,
    identity: DeviceIdentity,
    before: &NvmeIdentityCache,
    after: &NvmeIdentityCache,
    other: &str,
    other_before: Option<DeviceIdentity>,
    other_after: Option<DeviceIdentity>,
)
    requires
        *before == *old(cache),
        call_ensures(cache_nvme_identity, (cache, name, identity), ()),
        *after == *final(cache),
        call_ensures(cached_nvme_identity, (before, other), other_before),
        call_ensures(cached_nvme_identity, (after, other), other_after),
    ensures
        other@ == name@ ==> {
            &&& other_after is Some
            &&& same_identity(other_after->0, identity)
        },
        other@ != name@ ==> match (other_before, other_after) {
            (Some(x), Some(y)) => same_identity(x, y),
            (None, None) => true,
            _ => false,
        },
{
}

/// A new cache answers no name.
pub proof fn law_new_cache_answers_nothing(
    cache: &NvmeIdentityCache,
    name: &str,
    r: Option<DeviceIdentity>,
)
    requires
        call_ensures(NvmeIdentityCache::new, (), *cache),
        call_ensures(cached_nvme_identity, (cache, name), r),
    ensures
        r is None,
{
}

/// That the 16 bytes of `page` from `offset` on are the base-256 digits of a counter, lowest first.
pub open spec fn holds_counter(page: Seq<u8>, offset: int, counter: Option<u128>) -> bool {
    &&& counter is Some
    &&& forall|i: int|
        0 <= i < 16 ==> #[trigger] page[offset + i] as int == counter->0 as int
            / pow(256, i as nat) % 256
}

proof fn lemma_byte_is_digit(bytes: Seq<u8>, i: int)
    requires
        0 <= i < bytes.len(),
    ensures
        bytes[i] as int == le_value(bytes) as int / pow(256, i as nat)
            % 256,
    decreases i,
{
    reveal(pow);
    let rest = bytes.drop_first();
    if i > 0 {
        lemma_byte_is_digit(rest, i - 1);
        lemma_pow_positive(256, (i - 1) as nat);
        lemma_div_denominator(
            le_value(bytes) as int,
            256,
            pow(256, (i - 1) as nat),
        );
        assert(le_value(bytes) as int / 256 == le_value(rest));
        assert(bytes[i] == rest[i - 1]);
    }
}

proof fn lemma_holds_counter(page: Seq<u8>, offset: int)
    requires
        0 <= offset,
        offset + 16 <= page.len(),
    ensures
        holds_counter(page, offset, page_counter(page, offset)),
{
    let bytes = page.subrange(offset, offset + 16);
    lemma_le_value_fits(bytes);
    assert forall|i: int| 0 <= i < 16 implies #[trigger] page[offset + i] as int == le_value(
        bytes,
    ) as int / pow(256, i as nat) % 256 by {
        lemma_byte_is_digit(bytes, i);
        assert(bytes[i] == page[offset + i]);
    }
}

/// A log page of 512 bytes or more, and no other, is read; each field comes from its own bytes,
/// whatever the others hold.
pub proof fn law_smart_page(page: &[u8], r: Option<DeviceHealth>)
    requires
        call_ensures(DeviceHealth::from_nvme_smart, (page,), r),
    ensures
        r is Some <==> page@.len() >= 512,
        r matches Some(health) ==> {
            let kelvin = page@[1] + 256 * page@[2];
            &&& health.critical_warning == page@[0]
            &&& kelvin == 0 ==> health.temperature_celsius is None
            &&& 0 < kelvin <= 33040 ==> health.temperature_celsius == Some((kelvin - 273) as i16)
            &&& 33040 < kelvin ==> health.temperature_celsius == Some(
                (kelvin - 273 - 0x1_0000) as i16,
            )
            &&& health.available_spare_percent == Some(page@[3])
            &&& health.available_spare_threshold_percent == Some(page@[4])
            &&& health.percentage_used == Some(page@[5])
            &&& holds_counter(page@, 32, health.data_units_read)
            &&& holds_counter(page@, 48, health.data_units_written)
            &&& holds_counter(page@, 64, health.host_reads)
            &&& holds_counter(page@, 80, health.host_writes)
            &&& holds_counter(page@, 96, health.controller_busy_minutes)
            &&& holds_counter(page@, 112, health.power_cycles)
            &&& holds_counter(page@, 128, health.power_on_hours)
            &&& holds_counter(page@, 144, health.unsafe_shutdowns)
            &&& holds_counter(page@, 160, health.media_errors)
            &&& holds_counter(page@, 176, health.num_error_log_entries)
            &&& health.identity is None
            &&& health.smart_attributes@.len() == 0
        },
{
    if let Some(health) = r {
        let pair = page@.subrange(1, 3);
        reveal_with_fuel(le_value, 3);
        assert(pair.drop_first() =~= seq![page@[2]]);
        assert(le_value(pair) == page@[1] + 256 * page@[2]);
        assert(health@.smart_attributes.len() == 0);
        assert(health@.identity is None);
        lemma_holds_counter(page@, 32);
        lemma_holds_counter(page@, 48);
        lemma_holds_counter(page@, 64);
        lemma_holds_counter(page@, 80);
        lemma_holds_counter(page@, 96);
        lemma_holds_counter(page@, 112);
        lemma_holds_counter(page@, 128);
        lemma_holds_counter(page@, 144);
        lemma_holds_counter(page@, 160);
        lemma_holds_counter(page@, 176);
    }
}

/// A character of the Unicode property `White_Space`.
pub open spec fn blank(c: char) -> bool {
    ||| '\u{9}' <= c <= '\u{d}'
    ||| c == ' '
    ||| c == '\u{85}'
    ||| c == '\u{a0}'
    ||| c == '\u{1680}'
    ||| '\u{2000}' <= c <= '\u{200a}'
    ||| c == '\u{2028}'
    ||| c == '\u{2029}'
    ||| c == '\u{202f}'
    ||| c == '\u{205f}'
    ||| c == '\u{3000}'
}

/// What a text field of `len` bytes from `start` on may be read as: where it is no UTF-8 or holds
/// nothing but white space, as nothing; otherwise as all its characters but the white space at its
/// two ends.
pub open spec fn reads_field(
    data: Seq<u8>,
    start: int,
    len: int,
    text: Option<String>,
) -> bool {
    let field = Seq::new(len as nat, |i: int| data[start + i]);
    let chars = decode_utf8(field);
    match text {
        None => !valid_utf8(field) || forall|i: int|
            0 <= i < chars.len() ==> blank(#[trigger] chars[i]),
        Some(s) => {
            &&& valid_utf8(field)
            &&& s@.len() > 0
            &&& !blank(s@[0])
            &&& !blank(s@[s@.len() - 1])
            &&& exists|before: int| #[trigger]
                between_blanks(chars, before, s@)
        },
    }
}

/// That `chars` are `before` blanks, then `text`, then blanks.
pub open spec fn between_blanks(chars: Seq<char>, before: int, text: Seq<char>) -> bool {
    &&& 0 <= before <= before + text.len() <= chars.len()
    &&& forall|i: int| 0 <= i < text.len() ==> #[trigger] text[i] == chars[before + i]
    &&& forall|i: int|
        0 <= i < before || before + text.len() <= i < chars.len() ==> blank(#[trigger] chars[i])
}

proof fn lemma_reads_field(data: Seq<u8>, start: int, len: int, text: Option<String>)
    requires
        0 <= start,
        0 <= len,
        start + len <= data.len(),
        text.deep_view() == field_text(data.subrange(start, start + len)),
    ensures
        reads_field(data, start, len, text),
{
    let field = Seq::new(len as nat, |i: int| data[start + i]);
    assert(field =~= data.subrange(start, start + len));
    if !valid_utf8(field) {
        assert(text is None);
    }
    if valid_utf8(field) {
        let chars = decode_utf8(field);
        law_trimming_cuts_white_space_only(chars);
        let (from, to) = choose|from: int, to: int| trims_to(chars, from, to);
        let cut = trimmed(chars);
        if let Some(s) = text {
            law_field_text_is_trimmed(field);
            assert(s@ == cut);
            assert forall|i: int| 0 <= i < s@.len() implies #[trigger] s@[i] == chars[from + i] by {
            }
            assert(between_blanks(chars, from, s@));
            assert(s@.first() == s@[0]);
            assert(s@.last() == s@[s@.len() - 1]);
            assert(reads_field(data, start, len, text));
        } else {
            assert(from == to);
            assert forall|i: int| 0 <= i < chars.len() implies blank(#[trigger] chars[i]) by {
            }
        }
    }
}

/// Identify Controller data of 72 bytes or more, and no other, is read: serial number, model and
/// firmware revision each from the whole of its own field, and nothing else but that an NVMe device
/// does not rotate and sits on PCIe.
pub proof fn law_identify(data: &[u8], r: Option<DeviceIdentity>)
    requires
        call_ensures(identity_from_nvme_identify, (data,), r),
    ensures
        r is Some <==> data@.len() >= 72,
        r matches Some(identity) ==> {
            &&& reads_field(data@, 4, 20, identity.serial_number)
            &&& reads_field(data@, 24, 40, identity.model)
            &&& reads_field(data@, 64, 8, identity.firmware_revision)
            &&& identity.rotation_rate == Some(0u32)
            &&& identity.transport is Some
            &&& identity.transport->0@ == seq!['P', 'C', 'I', 'e']
            &&& identity.model_family is None
            &&& identity.wwn is None
            &&& identity.capacity_bytes is None
            &&& identity.logical_sector_size is None
            &&& identity.physical_sector_size is None
            &&& identity.form_factor is None
            &&& identity.link_speed is None
        },
{
    if let Some(identity) = r {
        reveal_strlit("PCIe");
        assert("PCIe"@ =~= seq!['P', 'C', 'I', 'e']);
        lemma_reads_field(data@, 4, 20, identity.serial_number);
        lemma_reads_field(data@, 24, 40, identity.model);
        lemma_reads_field(data@, 64, 8, identity.firmware_revision);
    }
}

/// That `text` is written in `len` bytes from `start` on, in ASCII, with spaces behind it.
pub open spec fn writes_padded(data: Seq<u8>, start: int, len: int, text: Seq<char>) -> bool {
    &&& 1 <= text.len() <= len
    &&& forall|i: int| 0 <= i < text.len() ==> '\0' <= #[trigger] text[i] <= '\u{7f}'
    &&& !blank(text[0])
    &&& !blank(text[text.len() - 1])
    &&& forall|i: int| 0 <= i < text.len() ==> #[trigger] data[start + i] == text[i] as u8
    &&& forall|i: int| text.len() <= i < len ==> #[trigger] data[start + i] == 0x20
}

proof fn lemma_padded_field(data: Seq<u8>, start: int, len: int, text: Seq<char>)
    requires
        0 <= start,
        start + len <= data.len(),
        writes_padded(data, start, len, text),
    ensures
        field_text(data.subrange(start, start + len)) == Some(text),
{
    let padding = (len - text.len()) as nat;
    let padded = space_padded(text, padding);
    let field = Seq::new(text.len() + padding, |i: int| padded[i] as u8);
    law_padded_text_is_read_back(text, padding);
    assert(field =~= data.subrange(start, start + len)) by {
        assert forall|i: int| 0 <= i < len implies field[i] == data.subrange(
            start,
            start + len,
        )[i] by {
            assert(data.subrange(start, start + len)[i] == data[start + i]);
            if i < text.len() {
                assert(padded[i] == text[i]);
            }
        }
    }
}

/// Serial number, model and firmware revision are read as they were written, for every ASCII text
/// that fits its field: up to 20, 40 and 8 characters.
pub proof fn law_identify_reads_what_was_written(
    data: &[u8],
    r: Option<DeviceIdentity>,
    serial: Seq<char>,
    model: Seq<char>,
    firmware: Seq<char>,
)
    requires
        call_ensures(identity_from_nvme_identify, (data,), r),
        data@.len() >= 72,
    ensures
        writes_padded(data@, 4, 20, serial) ==> r->0.serial_number is Some
            && r->0.serial_number->0@ == serial,
        writes_padded(data@, 24, 40, model) ==> r->0.model is Some && r->0.model->0@ == model,
        writes_padded(data@, 64, 8, firmware) ==> r->0.firmware_revision is Some
            && r->0.firmware_revision->0@ == firmware,
{
    if writes_padded(data@, 4, 20, serial) {
        lemma_padded_field(data@, 4, 20, serial);
    }
    if writes_padded(data@, 24, 40, model) {
        lemma_padded_field(data@, 24, 40, model);
    }
    if writes_padded(data@, 64, 8, firmware) {
        lemma_padded_field(data@, 64, 8, firmware);
    }
}

/// What a lower-case hexadecimal digit is worth.
pub open spec fn digit_worth(c: char) -> int {
    if '0' <= c <= '9' {
        c as int - '0' as int
    } else {
        c as int - 'a' as int + 10
    }
}

/// What a hexadecimal number is worth.
pub open spec fn number_worth(digits: Seq<char>) -> int
    decreases digits.len(),
{
    if digits.len() == 0 {
        0
    } else {
        16 * number_worth(digits.drop_last()) + digit_worth(digits.last())
    }
}

/// That `digits` are `n` in lower-case hexadecimal, in `width` digits or, where that is too few, in
/// as many as it takes.
pub open spec fn spells_number(digits: Seq<char>, n: u64, width: nat) -> bool {
    &&& digits.len() >= width
    &&& digits.len() > width ==> digits[0] != '0'
    &&& forall|i: int|
        0 <= i < digits.len() ==> '0' <= #[trigger] digits[i] <= '9' || 'a' <= digits[i] <= 'f'
    &&& number_worth(digits) == n
}

/// That a world wide name is made of three numbers, in at least 1, 6 and 10 digits: the first ends
/// before `i`, the second before `j`.
pub open spec fn spells_wwn(text: Seq<char>, i: int, j: int, naa: u64, oui: u64, id: u64) -> bool {
    &&& 0 <= i <= j <= text.len()
    &&& spells_number(text.subrange(0, i), naa, 1)
    &&& spells_number(text.subrange(i, j), oui, 6)
    &&& spells_number(text.subrange(j, text.len() as int), id, 10)
}

proof fn lemma_digit(d: int)
    requires
        0 <= d < 16,
    ensures
        digit_worth(digit_chars()[d]) == d,
        '0' <= digit_chars()[d] <= '9' || 'a' <= digit_chars()[d] <= 'f',
        digit_chars()[d] == '0' <==> d == 0,
{
}

proof fn lemma_hex_worth(n: nat)
    ensures
        hex_digits(n).len() >= 1,
        hex_digits(n).len() > 1 ==> hex_digits(n)[0] != '0',
        n > 0 ==> hex_digits(n)[0] != '0',
        forall|i: int|
            0 <= i < hex_digits(n).len() ==> '0' <= #[trigger] hex_digits(n)[i] <= '9' || 'a'
                <= hex_digits(n)[i] <= 'f',
        number_worth(hex_digits(n)) == n,
    decreases n,
{
    let digits = hex_digits(n);
    lemma_digit((n % 16) as int);
    if n < 16 {
        reveal_with_fuel(number_worth, 2);
        assert(digits.drop_last() =~= Seq::empty());
        assert(digits.last() == digit_chars()[n as int]);
    } else {
        lemma_hex_worth(n / 16);
        assert(digits.drop_last() =~= hex_digits(n / 16));
        assert(digits.last() == digit_chars()[(n % 16) as int]);
        assert forall|i: int| 0 <= i < digits.len() implies '0' <= #[trigger] digits[i] <= '9'
            || 'a' <= digits[i] <= 'f' by {
            if i < digits.len() - 1 {
                assert(digits[i] == hex_digits(n / 16)[i]);
            }
        }
        assert(digits[0] == hex_digits(n / 16)[0]);
    }
}

proof fn lemma_zeros_in_front(zeros: nat, digits: Seq<char>)
    ensures
        number_worth(Seq::new(zeros, |i: int| '0') + digits) == number_worth(digits),
    decreases zeros + digits.len(),
{
    let all = Seq::new(zeros, |i: int| '0') + digits;
    if digits.len() > 0 {
        assert(all.drop_last() =~= Seq::new(zeros, |i: int| '0') + digits.drop_last());
        assert(all.last() == digits.last());
        lemma_zeros_in_front(zeros, digits.drop_last());
    } else if zeros > 0 {
        assert(all.drop_last() =~= Seq::new((zeros - 1) as nat, |i: int| '0') + digits);
        assert(all.last() == '0');
        lemma_zeros_in_front((zeros - 1) as nat, digits);
    } else {
        assert(all =~= digits);
    }
}

proof fn lemma_spells_number(n: u64, width: nat)
    requires
        width >= 1,
    ensures
        spells_number(zero_padded(hex_digits(n as nat), width), n, width),
{
    let digits = hex_digits(n as nat);
    let padded = zero_padded(digits, width);
    lemma_hex_worth(n as nat);
    if digits.len() < width {
        let zeros = (width - digits.len()) as nat;
        lemma_zeros_in_front(zeros, digits);
        assert forall|i: int| 0 <= i < padded.len() implies '0' <= #[trigger] padded[i] <= '9'
            || 'a' <= padded[i] <= 'f' by {
            if i >= zeros {
                assert(padded[i] == digits[i - zeros]);
            }
        }
    }
}

proof fn lemma_spells_wwn(naa: u64, oui: u64, id: u64)
    ensures
        exists|i: int, j: int| spells_wwn(wwn_text(naa, oui, id), i, j, naa, oui, id),
{
    let text = wwn_text(naa, oui, id);
    let a = zero_padded(hex_digits(naa as nat), 1);
    let b = zero_padded(hex_digits(oui as nat), 6);
    let c = zero_padded(hex_digits(id as nat), 10);
    lemma_hex_worth(naa as nat);
    lemma_spells_number(naa, 1);
    lemma_spells_number(oui, 6);
    lemma_spells_number(id, 10);
    let i = a.len() as int;
    let j = (a.len() + b.len()) as int;
    assert(text =~= a + b + c);
    assert(text.subrange(0, i) =~= a);
    assert(text.subrange(i, j) =~= b);
    assert(text.subrange(j, text.len() as int) =~= c);
    assert(spells_wwn(text, i, j, naa, oui, id));
}

/// The low 32 bits of a reading that may be missing.
pub open spec fn low_32(a: Option<u64>) -> Option<u32> {
    match a {
        Some(n) => Some((n % 0x1_0000_0000) as u32),
        None => None,
    }
}

/// That each field of an identity is that of its own part of a report, whatever the other parts
/// hold: the texts and the capacity as they are, the sizes and the rate by their low 32 bits. There
/// is a world wide name where all three of its numbers are reported, and it is spelled by them.
pub open spec fn identity_reads(identity: DeviceIdentity, report: SmartctlReport) -> bool {
    &&& same_text(identity.model, report.model_name)
    &&& same_text(identity.model_family, report.model_family)
    &&& same_text(identity.serial_number, report.serial_number)
    &&& same_text(identity.firmware_revision, report.firmware_version)
    &&& identity.wwn is Some <==> report.wwn_naa is Some && report.wwn_oui is Some
        && report.wwn_id is Some
    &&& identity.wwn matches Some(wwn) ==> exists|i: int, j: int|
        spells_wwn(wwn@, i, j, report.wwn_naa->0, report.wwn_oui->0, report.wwn_id->0)
    &&& identity.capacity_bytes == report.capacity_bytes
    &&& identity.logical_sector_size == low_32(report.logical_block_size)
    &&& identity.physical_sector_size == low_32(report.physical_block_size)
    &&& identity.rotation_rate == low_32(report.rotation_rate)
    &&& same_text(identity.form_factor, report.form_factor)
    &&& same_text(identity.transport, report.protocol)
    &&& same_text(identity.link_speed, report.link_speed)
}

proof fn lemma_identity_reads(identity: DeviceIdentity, report: SmartctlReport)
    requires
        identity@ == identity_of(report@),
    ensures
        identity_reads(identity, report),
{
    if report.wwn_naa is Some && report.wwn_oui is Some && report.wwn_id is Some {
        lemma_spells_wwn(report.wwn_naa->0, report.wwn_oui->0, report.wwn_id->0);
    }
}

/// Every part of a report that belongs to the identity arrives in it, unchanged and in its own
/// place, and so does the world wide name.
pub proof fn law_identity_of_report(report: &SmartctlReport, identity: DeviceIdentity)
    requires
        call_ensures(parse_smartctl_identity, (report,), identity),
    ensures
        identity_reads(identity, *report),
{
    lemma_identity_reads(identity, *report);
}

/// The health of a report holds the identity of that report.
pub proof fn law_health_holds_identity(report: &SmartctlReport, health: DeviceHealth)
    requires
        call_ensures(parse_smartctl_report, (report,), health),
    ensures
        health.identity matches Some(identity) && identity_reads(identity, *report),
{
    assert(health@.identity is Some);
    lemma_identity_reads(health.identity->0, *report);
}

/// The low 8 bits of a reading that may be missing.
pub open spec fn low_8(a: Option<u64>) -> Option<u8> {
    match a {
        Some(n) => Some((n % 0x100) as u8),
        None => None,
    }
}

/// A reading that may be missing, in full.
pub open spec fn in_full(a: Option<u64>) -> Option<u128> {
    match a {
        Some(n) => Some(n as u128),
        None => None,
    }
}

/// The readings that only the NVMe log has arrive in their own places: the percentages by their low
/// 8 bits, the counters in full, and those that are missing as missing.
pub proof fn law_log_readings(report: &SmartctlReport, health: DeviceHealth)
    requires
        call_ensures(parse_smartctl_report, (report,), health),
    ensures
        health.available_spare_percent == low_8(report.nvme.available_spare),
        health.available_spare_threshold_percent == low_8(report.nvme.available_spare_threshold),
        health.percentage_used == low_8(report.nvme.percentage_used),
        health.data_units_read == in_full(report.nvme.data_units_read),
        health.data_units_written == in_full(report.nvme.data_units_written),
        health.host_reads == in_full(report.nvme.host_reads),
        health.host_writes == in_full(report.nvme.host_writes),
        health.controller_busy_minutes == in_full(report.nvme.controller_busy_time),
        health.unsafe_shutdowns == in_full(report.nvme.unsafe_shutdowns),
{
}

/// The critical-warning byte is the low byte of the one in the NVMe log, with bit 0x04 added where
/// the device has failed its own assessment, and only there.
pub proof fn law_warning_byte(report: &SmartctlReport, health: DeviceHealth)
    requires
        call_ensures(parse_smartctl_report, (report,), health),
    ensures
        ({
            let failed: u8 = if report.passed == Some(false) {
                0x04
            } else {
                0x00
            };
            let logged: u8 = match report.nvme.critical_warning {
                Some(n) => (n % 0x100) as u8,
                None => 0,
            };
            health.critical_warning == failed | logged
        }),
        report.passed == Some(false) ==> health.critical_warning & 0x04 != 0,
{
    let logged: u8 = match report.nvme.critical_warning {
        Some(n) => (n % 0x100) as u8,
        None => 0,
    };
    assert(0u8 | logged == logged) by (bit_vector);
    assert(4u8 | logged == if logged / 4 % 2 == 1 {
        logged as int
    } else {
        logged + 4
    }) by (bit_vector);
    assert((4u8 | logged) & 0x04 != 0) by (bit_vector);
}

/// That row `i` of a table holds a raw value under one of two ids.
pub open spec fn row_tells(table: Seq<AtaEntry>, i: int, id: u64, other_id: u64) -> bool {
    &&& 0 <= i < table.len()
    &&& table[i].id == Some(id) || table[i].id == Some(other_id)
    &&& table[i].raw is Some
}

/// That row `i` is the first of a table that holds a raw value under one of two ids.
pub open spec fn first_to_tell(table: Seq<AtaEntry>, i: int, id: u64, other_id: u64) -> bool {
    &&& row_tells(table, i, id, other_id)
    &&& forall|k: int| 0 <= k < i ==> !#[trigger] row_tells(table, k, id, other_id)
}

/// That row `i` is the last of a table that holds a raw value under one of two ids.
pub open spec fn last_to_tell(table: Seq<AtaEntry>, i: int, id: u64, other_id: u64) -> bool {
    &&& row_tells(table, i, id, other_id)
    &&& forall|k: int| i < k < table.len() ==> !#[trigger] row_tells(table, k, id, other_id)
}

/// That no row of a table holds a raw value under one of two ids.
pub open spec fn none_tells(table: Seq<AtaEntry>, id: u64, other_id: u64) -> bool {
    forall|k: int| 0 <= k < table.len() ==> !#[trigger] row_tells(table, k, id, other_id)
}

proof fn lemma_rows(report: SmartctlReport, i: int, id: u64, other_id: u64)
    requires
        id != 0,
        other_id != 0,
    ensures
        first_to_tell(report.ata_table@, i, id, other_id) ==> first_raw(
            report@.ata_table,
            id,
            other_id,
        ) == report.ata_table@[i].raw,
        last_to_tell(report.ata_table@, i, id, other_id) ==> last_raw(
            report@.ata_table,
            id,
            other_id,
        ) == report.ata_table@[i].raw,
        none_tells(report.ata_table@, id, other_id) ==> first_raw(
            report@.ata_table,
            id,
            other_id,
        ) is None && last_raw(report@.ata_table, id, other_id) is None,
{
    let rows = report.ata_table@;
    let table = report@.ata_table;
    assert(table.len() == rows.len());
    assert forall|k: int| 0 <= k < rows.len() implies raw_of(#[trigger] table[k], id, other_id)
        == if row_tells(rows, k, id, other_id) {
        rows[k].raw
    } else {
        None
    } by {
        assert(table[k] == rows[k]@);
    }
    if first_to_tell(rows, i, id, other_id) {
        law_first_raw_is_first(table, id, other_id, i);
    }
    if last_to_tell(rows, i, id, other_id) {
        law_last_raw_is_last(table, id, other_id, i);
    }
    if none_tells(rows, id, other_id) {
        law_no_raw_no_reading(table, id, other_id);
    }
}

/// Error-log entries are counted by the last row 187 or 198 of the attribute table that holds a raw
/// value, and by the NVMe log where no such row does.
pub proof fn law_error_log_entries(report: &SmartctlReport, health: DeviceHealth, i: int)
    requires
        call_ensures(parse_smartctl_report, (report,), health),
    ensures
        last_to_tell(report.ata_table@, i, 187, 198) ==> health.num_error_log_entries == in_full(
            report.ata_table@[i].raw,
        ),
        none_tells(report.ata_table@, 187, 198) ==> health.num_error_log_entries == in_full(
            report.nvme.num_err_log_entries,
        ),
{
    lemma_rows(*report, i, 187, 198);
}

/// Media errors are counted by the last row 5 of the attribute table that holds a raw value, where
/// no such row does by the NVMe log, and where that does not either by the grown defect list.
pub proof fn law_media_errors(report: &SmartctlReport, health: DeviceHealth, i: int)
    requires
        call_ensures(parse_smartctl_report, (report,), health),
    ensures
        last_to_tell(report.ata_table@, i, 5, 5) ==> health.media_errors == in_full(
            report.ata_table@[i].raw,
        ),
        none_tells(report.ata_table@, 5, 5) ==> {
            &&& report.nvme.media_errors is Some ==> health.media_errors == in_full(
                report.nvme.media_errors,
            )
            &&& report.nvme.media_errors is None ==> health.media_errors == in_full(
                report.grown_defects,
            )
        },
{
    lemma_rows(*report, i, 5, 5);
}

/// Power-on hours are those of the NVMe log, where it has none those of the top level of the
/// report, and where that has none either those of the first row 9 that holds a raw value.
pub proof fn law_power_on_hours(report: &SmartctlReport, health: DeviceHealth, i: int)
    requires
        call_ensures(parse_smartctl_report, (report,), health),
    ensures
        report.nvme.power_on_hours is Some ==> health.power_on_hours == in_full(
            report.nvme.power_on_hours,
        ),
        report.nvme.power_on_hours is None && report.power_on_hours is Some
            ==> health.power_on_hours == in_full(report.power_on_hours),
        report.nvme.power_on_hours is None && report.power_on_hours is None ==> {
            &&& first_to_tell(report.ata_table@, i, 9, 9) ==> health.power_on_hours == in_full(
                report.ata_table@[i].raw,
            )
            &&& none_tells(report.ata_table@, 9, 9) ==> health.power_on_hours is None
        },
{
    lemma_rows(*report, i, 9, 9);
}

/// Power cycles are those of the NVMe log, where it has none those of the top level of the report,
/// and where that has none either those of the first row 12 that holds a raw value.
pub proof fn law_power_cycles(report: &SmartctlReport, health: DeviceHealth, i: int)
    requires
        call_ensures(parse_smartctl_report, (report,), health),
    ensures
        report.nvme.power_cycles is Some ==> health.power_cycles == in_full(
            report.nvme.power_cycles,
        ),
        report.nvme.power_cycles is None && report.power_cycle_count is Some
            ==> health.power_cycles == in_full(report.power_cycle_count),
        report.nvme.power_cycles is None && report.power_cycle_count is None ==> {
            &&& first_to_tell(report.ata_table@, i, 12, 12) ==> health.power_cycles == in_full(
                report.ata_table@[i].raw,
            )
            &&& none_tells(report.ata_table@, 12, 12) ==> health.power_cycles is None
        },
{
    lemma_rows(*report, i, 12, 12);
}

/// That a temperature is `degrees`, or differs from it by whole multiples of 2^16 where that does
/// not fit.
pub open spec fn is_degrees(celsius: Option<i16>, degrees: i64) -> bool {
    &&& celsius is Some
    &&& (degrees - celsius->0) % 0x1_0000 == 0
    &&& i16::MIN <= degrees <= i16::MAX ==> celsius->0 == degrees
}

/// The temperature is that of the NVMe log, where it has none that of the top level of the report,
/// and where that has none either the low byte of the first row 190 or 194 that holds a raw value.
pub proof fn law_temperature(report: &SmartctlReport, health: DeviceHealth, i: int)
    requires
        call_ensures(parse_smartctl_report, (report,), health),
    ensures
        report.nvme.temperature matches Some(t) ==> is_degrees(health.temperature_celsius, t),
        report.nvme.temperature is None ==> (report.temperature matches Some(t) ==> is_degrees(
            health.temperature_celsius,
            t,
        )),
        report.nvme.temperature is None && report.temperature is None ==> {
            &&& first_to_tell(report.ata_table@, i, 190, 194) ==> health.temperature_celsius
                == Some((report.ata_table@[i].raw->0 % 0x100) as i16)
            &&& none_tells(report.ata_table@, 190, 194) ==> health.temperature_celsius is None
        },
{
    lemma_rows(*report, i, 190, 194);
}

/// That each field of an attribute is the one of its row with the same name: the numbers by their
/// low 8 bits, the name and the raw value in full, and 0 or the empty name for what is missing.
pub open spec fn attribute_reads(attribute: SmartAttribute, row: AtaEntry) -> bool {
    &&& row.id is Some ==> attribute.id == row.id->0 % 0x100
    &&& row.id is None ==> attribute.id == 0
    &&& row.name is Some ==> attribute.name@ == row.name->0@
    &&& row.name is None ==> attribute.name@.len() == 0
    &&& row.value is Some ==> attribute.value == row.value->0 % 0x100
    &&& row.value is None ==> attribute.value == 0
    &&& row.worst is Some ==> attribute.worst == row.worst->0 % 0x100
    &&& row.worst is None ==> attribute.worst == 0
    &&& row.thresh is Some ==> attribute.threshold == row.thresh->0 % 0x100
    &&& row.thresh is None ==> attribute.threshold == 0
    &&& row.raw is Some ==> attribute.raw_value == row.raw->0
    &&& row.raw is None ==> attribute.raw_value == 0
}

/// There is an attribute for each row of the table, in its order, and each of its fields is that of
/// the row.
pub proof fn law_attributes(report: &SmartctlReport, health: DeviceHealth)
    requires
        call_ensures(parse_smartctl_report, (report,), health),
    ensures
        health.smart_attributes@.len() == report.ata_table@.len(),
        forall|i: int|
            0 <= i < report.ata_table@.len() ==> attribute_reads(
                #[trigger] health.smart_attributes@[i],
                report.ata_table@[i],
            ),
{
    let rows = report.ata_table@;
    assert(health@.smart_attributes.len() == health.smart_attributes@.len());
    assert(report@.ata_table.len() == rows.len());
    assert forall|i: int| 0 <= i < rows.len() implies attribute_reads(
        #[trigger] health.smart_attributes@[i],
        rows[i],
    ) by {
        assert(health@.smart_attributes[i] == health.smart_attributes@[i]@);
        assert(report@.ata_table[i] == rows[i]@);
        assert(health@.smart_attributes[i] == attribute_of(rows[i]@));
    }
}

/// What an object holds under a key: nothing where there is no object, or no such key in it.
pub open spec fn child(parent: Option<Json>, key: Seq<char>) -> Option<Json> {
    match parent {
        Some(Json::Object(members)) => if members.contains_key(key) {
            Some(members[key])
        } else {
            None
        },
        _ => None,
    }
}

/// A natural number below 2^64, and nothing for anything else.
pub open spec fn natural(value: Option<Json>) -> Option<u64> {
    match value {
        Some(Json::Integer(n)) => if 0 <= n < 0x1_0000_0000_0000_0000 {
            Some(n as u64)
        } else {
            None
        },
        _ => None,
    }
}

/// An integer from -2^63 to 2^63 - 1, and nothing for anything else.
pub open spec fn integer(value: Option<Json>) -> Option<i64> {
    match value {
        Some(Json::Integer(n)) => if -0x8000_0000_0000_0000 <= n < 0x8000_0000_0000_0000 {
            Some(n as i64)
        } else {
            None
        },
        _ => None,
    }
}

/// That a text was read: the one in `value`, and nothing where that is no text.
pub open spec fn reads_text(text: Option<String>, value: Option<Json>) -> bool {
    match value {
        Some(Json::Text(s)) => text is Some && text->0@ == s,
        _ => text is None,
    }
}

/// The rows of an array, and none for anything else.
pub open spec fn rows_of(value: Option<Json>) -> Seq<Json> {
    match value {
        Some(Json::Array(rows)) => rows,
        _ => Seq::empty(),
    }
}

/// That each field of a table row is what the document holds under its name.
pub open spec fn row_reads(row: AtaEntry, value: Json) -> bool {
    let value = Some(value);
    &&& row.id == natural(child(value, "id"@))
    &&& reads_text(row.name, child(value, "name"@))
    &&& row.value == natural(child(value, "value"@))
    &&& row.worst == natural(child(value, "worst"@))
    &&& row.thresh == natural(child(value, "thresh"@))
    &&& row.raw == natural(child(child(value, "raw"@), "value"@))
}

proof fn lemma_path_one(doc: Json, a: Seq<char>, text: Option<String>)
    ensures
        unsigned_at(doc, seq![a]) == natural(child(Some(doc), a)),
        text.deep_view() == text_at(doc, seq![a]) ==> reads_text(text, child(Some(doc), a)),
{
    lemma_one_key(doc, a);
}

proof fn lemma_path_two(doc: Json, a: Seq<char>, b: Seq<char>, text: Option<String>)
    ensures
        doc.at(seq![a, b]) == child(child(Some(doc), a), b),
        unsigned_at(doc, seq![a, b]) == natural(child(child(Some(doc), a), b)),
        signed_at(doc, seq![a, b]) == integer(child(child(Some(doc), a), b)),
        text.deep_view() == text_at(doc, seq![a, b]) ==> reads_text(
            text,
            child(child(Some(doc), a), b),
        ),
        elements_at(doc, seq![a, b]) == rows_of(child(child(Some(doc), a), b)),
{
    lemma_two_keys(doc, a, b);
}

proof fn lemma_path_three(
    doc: Json,
    a: Seq<char>,
    b: Seq<char>,
    c: Seq<char>,
    text: Option<String>,
)
    ensures
        text.deep_view() == text_at(doc, seq![a, b, c]) ==> reads_text(
            text,
            child(child(child(Some(doc), a), b), c),
        ),
{
    assert(seq![a, b, c].drop_first() =~= seq![b, c]);
    if let Some(next) = doc.member(a) {
        lemma_two_keys(next, b, c);
    }
}

proof fn lemma_row_reads(row: AtaEntry, value: Json)
    requires
        row@ == entry_of(value),
    ensures
        row_reads(row, value),
{
    lemma_path_one(value, "id"@, None);
    lemma_path_one(value, "name"@, row.name);
    lemma_path_one(value, "value"@, None);
    lemma_path_one(value, "worst"@, None);
    lemma_path_one(value, "thresh"@, None);
    lemma_path_two(value, "raw"@, "value"@, None);
}

/// A report holds what the document has in the places that smartctl documents for it, each in its
/// own field, whatever the document holds elsewhere.
pub proof fn law_report_inventory(j: &Value, r: SmartctlReport)
    requires
        call_ensures(SmartctlReport::from_json, (j,), r),
    ensures
        ({
            let doc = Some(json_of(*j));
            &&& reads_text(r.model_name, child(doc, "model_name"@))
            &&& reads_text(r.model_family, child(doc, "model_family"@))
            &&& reads_text(r.serial_number, child(doc, "serial_number"@))
            &&& reads_text(r.firmware_version, child(doc, "firmware_version"@))
            &&& r.wwn_naa == natural(child(child(doc, "wwn"@), "naa"@))
            &&& r.wwn_oui == natural(child(child(doc, "wwn"@), "oui"@))
            &&& r.wwn_id == natural(child(child(doc, "wwn"@), "id"@))
            &&& r.capacity_bytes == natural(child(child(doc, "user_capacity"@), "bytes"@))
            &&& r.logical_block_size == natural(child(doc, "logical_block_size"@))
            &&& r.physical_block_size == natural(child(doc, "physical_block_size"@))
            &&& r.rotation_rate == natural(child(doc, "rotation_rate"@))
            &&& reads_text(r.form_factor, child(child(doc, "form_factor"@), "name"@))
            &&& reads_text(r.protocol, child(child(doc, "device"@), "protocol"@))
            &&& reads_text(
                r.link_speed,
                child(child(child(doc, "interface_speed"@), "current"@), "string"@),
            )
        }),
{
    let doc = json_of(*j);
    lemma_path_one(doc, "model_name"@, r.model_name);
    lemma_path_one(doc, "model_family"@, r.model_family);
    lemma_path_one(doc, "serial_number"@, r.serial_number);
    lemma_path_one(doc, "firmware_version"@, r.firmware_version);
    lemma_path_two(doc, "wwn"@, "naa"@, None);
    lemma_path_two(doc, "wwn"@, "oui"@, None);
    lemma_path_two(doc, "wwn"@, "id"@, None);
    lemma_path_two(doc, "user_capacity"@, "bytes"@, None);
    lemma_path_one(doc, "logical_block_size"@, None);
    lemma_path_one(doc, "physical_block_size"@, None);
    lemma_path_one(doc, "rotation_rate"@, None);
    lemma_path_two(doc, "form_factor"@, "name"@, r.form_factor);
    lemma_path_two(doc, "device"@, "protocol"@, r.protocol);
    lemma_path_three(doc, "interface_speed"@, "current"@, "string"@, r.link_speed);
}

/// A report holds the readings at the top level of the document, each in its own field.
pub proof fn law_report_readings(j: &Value, r: SmartctlReport)
    requires
        call_ensures(SmartctlReport::from_json, (j,), r),
    ensures
        ({
            let doc = Some(json_of(*j));
            &&& r.passed == Some(true) <==> child(child(doc, "smart_status"@), "passed"@) == Some(
                Json::Bool(true),
            )
            &&& r.passed == Some(false) <==> child(child(doc, "smart_status"@), "passed"@) == Some(
                Json::Bool(false),
            )
            &&& r.temperature == integer(child(child(doc, "temperature"@), "current"@))
            &&& r.power_on_hours == natural(child(child(doc, "power_on_time"@), "hours"@))
            &&& r.power_cycle_count == natural(child(doc, "power_cycle_count"@))
            &&& r.grown_defects == natural(child(doc, "scsi_grown_defect_list"@))
        }),
{
    let doc = json_of(*j);
    lemma_path_two(doc, "smart_status"@, "passed"@, None);
    lemma_path_two(doc, "temperature"@, "current"@, None);
    lemma_path_two(doc, "power_on_time"@, "hours"@, None);
    lemma_path_one(doc, "power_cycle_count"@, None);
    lemma_path_one(doc, "scsi_grown_defect_list"@, None);
}

/// A report holds the readings of the NVMe log of the document, each in its own field, and none
/// where there is no such log.
pub proof fn law_report_log(j: &Value, r: SmartctlReport)
    requires
        call_ensures(SmartctlReport::from_json, (j,), r),
    ensures
        ({
            let log = child(Some(json_of(*j)), "nvme_smart_health_information_log"@);
            &&& r.nvme.critical_warning == natural(child(log, "critical_warning"@))
            &&& r.nvme.temperature == integer(child(log, "temperature"@))
            &&& r.nvme.available_spare == natural(child(log, "available_spare"@))
            &&& r.nvme.available_spare_threshold == natural(
                child(log, "available_spare_threshold"@),
            )
            &&& r.nvme.percentage_used == natural(child(log, "percentage_used"@))
            &&& r.nvme.data_units_read == natural(child(log, "data_units_read"@))
            &&& r.nvme.data_units_written == natural(child(log, "data_units_written"@))
            &&& r.nvme.host_reads == natural(child(log, "host_reads"@))
            &&& r.nvme.host_writes == natural(child(log, "host_writes"@))
            &&& r.nvme.controller_busy_time == natural(child(log, "controller_busy_time"@))
            &&& r.nvme.power_cycles == natural(child(log, "power_cycles"@))
            &&& r.nvme.power_on_hours == natural(child(log, "power_on_hours"@))
            &&& r.nvme.unsafe_shutdowns == natural(child(log, "unsafe_shutdowns"@))
            &&& r.nvme.media_errors == natural(child(log, "media_errors"@))
            &&& r.nvme.num_err_log_entries == natural(child(log, "num_err_log_entries"@))
        }),
{
    let doc = json_of(*j);
    lemma_path_two(doc, "nvme_smart_health_information_log"@, "critical_warning"@, None);
    lemma_path_two(doc, "nvme_smart_health_information_log"@, "temperature"@, None);
    lemma_path_two(doc, "nvme_smart_health_information_log"@, "available_spare"@, None);
    lemma_path_two(doc, "nvme_smart_health_information_log"@, "available_spare_threshold"@, None);
    lemma_path_two(doc, "nvme_smart_health_information_log"@, "percentage_used"@, None);
    lemma_path_two(doc, "nvme_smart_health_information_log"@, "data_units_read"@, None);
    lemma_path_two(doc, "nvme_smart_health_information_log"@, "data_units_written"@, None);
    lemma_path_two(doc, "nvme_smart_health_information_log"@, "host_reads"@, None);
    lemma_path_two(doc, "nvme_smart_health_information_log"@, "host_writes"@, None);
    lemma_path_two(doc, "nvme_smart_health_information_log"@, "controller_busy_time"@, None);
    lemma_path_two(doc, "nvme_smart_health_information_log"@, "power_cycles"@, None);
    lemma_path_two(doc, "nvme_smart_health_information_log"@, "power_on_hours"@, None);
    lemma_path_two(doc, "nvme_smart_health_information_log"@, "unsafe_shutdowns"@, None);
    lemma_path_two(doc, "nvme_smart_health_information_log"@, "media_errors"@, None);
    lemma_path_two(doc, "nvme_smart_health_information_log"@, "num_err_log_entries"@, None);
}

/// A report holds the rows of the attribute table of the document, all of them and in their order,
/// and none where there is no such table.
pub proof fn law_report_table(j: &Value, r: SmartctlReport)
    requires
        call_ensures(SmartctlReport::from_json, (j,), r),
    ensures
        ({
            let rows = rows_of(
                child(child(Some(json_of(*j)), "ata_smart_attributes"@), "table"@),
            );
            &&& r.ata_table@.len() == rows.len()
            &&& forall|i: int|
                0 <= i < rows.len() ==> row_reads(#[trigger] r.ata_table@[i], rows[i])
        }),
{
    let doc = json_of(*j);
    let rows = rows_of(child(child(Some(doc), "ata_smart_attributes"@), "table"@));
    lemma_path_two(doc, "ata_smart_attributes"@, "table"@, None);
    assert(r@.ata_table.len() == r.ata_table@.len());
    assert(r@.ata_table.len() == rows.len());
    assert forall|i: int| 0 <= i < rows.len() implies row_reads(
        #[trigger] r.ata_table@[i],
        rows[i],
    ) by {
        assert(r@.ata_table[i] == r.ata_table@[i]@);
        assert(r@.ata_table[i] == entry_of(rows[i]));
        lemma_row_reads(r.ata_table@[i], rows[i]);
    }
}

/// The health of a document is that of the report that is read from it.
pub proof fn law_health_of_document(
    j: &Value,
    report: &SmartctlReport,
    from_report: DeviceHealth,
    health: DeviceHealth,
)
    requires
        call_ensures(SmartctlReport::from_json, (j,), *report),
        call_ensures(parse_smartctl_report, (report,), from_report),
        call_ensures(parse_smartctl, (j,), health),
    ensures
        same_health(health, from_report),
{
    lemma_same_health(health, from_report);
}

/// A document that names a device gives a health, the very one that [`parse_smartctl`] gives for
/// it; any other gives the error `ENXIO`.
pub proof fn law_document_with_device(
    j: &Value,
    mapped: DeviceHealth,
    r: Result<DeviceHealth, CoreError>,
)
    requires
        call_ensures(parse_smartctl, (j,), mapped),
        call_ensures(health_from_json, (j,), r),
    ensures
        match r {
            Ok(health) => {
                &&& child(Some(json_of(*j)), "device"@) is Some
                &&& same_health(health, mapped)
            },
            Err(e) => {
                &&& child(Some(json_of(*j)), "device"@) is None
                &&& e == (CoreError::NotSupported { source: Errno::ENXIO })
            },
        },
{
    if let Ok(health) = r {
        lemma_same_health(health, mapped);
    }
}

/// What smartctl has written is judged as the document that it parses to; text that is no JSON
/// gives `EIO`, and a smartctl that could not be run `ENOENT`.
pub proof fn law_output_is_judged_as_document(
    stdout: Option<&[u8]>,
    j: &Value,
    of_document: Result<DeviceHealth, CoreError>,
    r: Result<DeviceHealth, CoreError>,
)
    requires
        call_ensures(health_from_json, (j,), of_document),
        call_ensures(read_device_health, (stdout,), r),
    ensures
        stdout is None ==> r == Err::<DeviceHealth, CoreError>(
            CoreError::NotSupported { source: Errno::ENOENT },
        ),
        stdout matches Some(text) ==> {
            &&& parsed(text@) is None ==> r == Err::<DeviceHealth, CoreError>(
                CoreError::NotSupported { source: Errno::EIO },
            )
            &&& parsed(text@) == Some(json_of(*j)) ==> match (r, of_document) {
                (Ok(a), Ok(b)) => same_health(a, b),
                (Err(a), Err(b)) => a == b,
                _ => false,
            }
        },
{
    if let Some(text) = stdout {
        if parsed(text@) == Some(json_of(*j)) {
            if r is Ok && of_document is Ok {
                lemma_same_health(r->Ok_0, of_document->Ok_0);
            }
        }
    }
}

/// What the document of a device says of its overall status, its temperature and its power-on hours
/// is in the health that comes back from smartctl's output: a failed status as the reliability bit,
/// the temperature and the hours as they are where no NVMe log has its own.
pub proof fn law_readings_reach_the_caller(
    text: &[u8],
    doc: Json,
    r: Result<DeviceHealth, CoreError>,
)
    requires
        call_ensures(read_device_health, (Some(text),), r),
        parsed(text@) == Some(doc),
        child(Some(doc), "device"@) is Some,
    ensures
        r is Ok,
        child(child(Some(doc), "smart_status"@), "passed"@) == Some(Json::Bool(false))
            ==> r->Ok_0.critical_warning & 0x04 != 0,
        ({
            let log = child(Some(doc), "nvme_smart_health_information_log"@);
            &&& integer(child(log, "temperature"@)) is None ==> (integer(
                child(child(Some(doc), "temperature"@), "current"@),
            ) matches Some(t) ==> is_degrees(r->Ok_0.temperature_celsius, t))
            &&& natural(child(log, "power_on_hours"@)) is None ==> (natural(
                child(child(Some(doc), "power_on_time"@), "hours"@),
            ) matches Some(n) ==> r->Ok_0.power_on_hours == Some(n as u128))
            &&& natural(child(log, "power_cycles"@)) is None ==> (natural(
                child(Some(doc), "power_cycle_count"@),
            ) matches Some(n) ==> r->Ok_0.power_cycles == Some(n as u128))
        }),
{
    let health = r->Ok_0;
    lemma_path_two(doc, "smart_status"@, "passed"@, None);
    lemma_path_two(doc, "temperature"@, "current"@, None);
    lemma_path_two(doc, "power_on_time"@, "hours"@, None);
    lemma_path_one(doc, "power_cycle_count"@, None);
    lemma_path_two(doc, "nvme_smart_health_information_log"@, "temperature"@, None);
    lemma_path_two(doc, "nvme_smart_health_information_log"@, "power_on_hours"@, None);
    lemma_path_two(doc, "nvme_smart_health_information_log"@, "power_cycles"@, None);
    let w = health.critical_warning;
    assert((w & 0x04 != 0) == (w / 0x04 % 2 == 1)) by (bit_vector);
}

/// smartctl is run with three arguments, for JSON, for everything, and for the device at the path.
pub proof fn law_smartctl_arguments(path: &str, args: Vec<String>)
    requires
        call_ensures(smartctl_args, (path,), args),
    ensures
        args@.len() == 3,
        args@[0]@ == "--json"@,
        args@[1]@ == "--all"@,
        args@[2]@ == path@,
{
    let texts = args@.map_values(|s: String| s@);
    assert(texts.len() == args@.len());
    assert(texts[0] == args@[0]@);
    assert(texts[1] == args@[1]@);
    assert(texts[2] == args@[2]@);
}

} // verus!
