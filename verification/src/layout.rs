//! Bit layout of the arbitration register.
//!
//! | bits  | field                                              |
//! |-------|----------------------------------------------------|
//! | 0–28  | extended identifier                                |
//! | 18–28 | standard identifier (top of the extended field)    |
//! | 29    | RTR: 1 for a remote frame, 0 for a data frame      |
//! | 30    | XTD: 1 for an extended identifier, 0 for standard  |
//!
//! The functions here say what a 32-bit word means under this layout. Bits
//! outside the field that the XTD flag selects carry no meaning and are
//! masked off whenever the identifier is read.

use vstd::prelude::*;
use crate::ident::{base_of, lemma_base_in_range, IdValue};

verus! {

/// Offset of the standard identifier field.
pub const STANDARD_SHIFT: u32 = 18;

/// Bits 18 to 28: the standard identifier field.
pub const STANDARD_MASK: u32 = 0x1FFC_0000;

/// Offset of the extended identifier field.
pub const EXTENDED_SHIFT: u32 = 0;

/// Bits 0 to 28: the extended identifier field.
pub const EXTENDED_MASK: u32 = 0x1FFF_FFFF;

/// Position of the RTR flag.
pub const RTR_SHIFT: u32 = 29;

/// Bit 29: the RTR flag.
pub const RTR_MASK: u32 = 0x2000_0000;

/// Position of the XTD flag.
pub const XTD_SHIFT: u32 = 30;

/// Bit 30: the XTD flag.
pub const XTD_MASK: u32 = 0x4000_0000;

/// The word of a data frame with the standard identifier `raw`.
pub open spec fn standard_word(raw: u16) -> u32 {
    (raw as u32) << STANDARD_SHIFT
}

/// The word of a data frame with the extended identifier `raw`.
pub open spec fn extended_word(raw: u32) -> u32 {
    raw | XTD_MASK
}

/// The word of a data frame with the identifier `value`.
pub open spec fn ident_word(value: IdValue) -> u32 {
    match value {
        IdValue::Standard(raw) => standard_word(raw),
        IdValue::Extended(raw) => extended_word(raw),
    }
}

/// The identifier field of a register that holds `value`: a standard value
/// sits at the top of the field, an extended value fills it.
pub open spec fn ident_field(value: IdValue) -> u32 {
    match value {
        IdValue::Standard(raw) => (raw as u32) << STANDARD_SHIFT,
        IdValue::Extended(raw) => raw,
    }
}

/// The RTR flag as a word: bit 29 for a remote frame, nothing for a data frame.
pub open spec fn rtr_bit(remote: bool) -> u32 {
    if remote {
        RTR_MASK
    } else {
        0
    }
}

/// The XTD flag as a word: bit 30 for an extended identifier, nothing for a
/// standard one.
pub open spec fn xtd_bit(extended: bool) -> u32 {
    if extended {
        XTD_MASK
    } else {
        0
    }
}

/// The word made of raw identifier bits and the two flags.
pub open spec fn register_word(id: u32, remote: bool, extended: bool) -> u32 {
    id | rtr_bit(remote) | xtd_bit(extended)
}

/// The word `word` with its RTR flag set to `remote` and every other bit kept.
pub open spec fn word_with_rtr(word: u32, remote: bool) -> u32 {
    if remote {
        word | RTR_MASK
    } else {
        word & !RTR_MASK
    }
}

/// The XTD flag of a word.
pub open spec fn word_is_extended(word: u32) -> bool {
    word & XTD_MASK != 0
}

/// The RTR flag of a word.
pub open spec fn word_is_remote(word: u32) -> bool {
    word & RTR_MASK != 0
}

/// Bits 0 to 28 of a word, whatever its XTD flag says.
pub open spec fn word_raw_id(word: u32) -> u32 {
    word & EXTENDED_MASK
}

/// The standard identifier field of a word, shifted down to bit 0.
pub open spec fn word_standard_raw(word: u32) -> u16 {
    ((word & STANDARD_MASK) >> STANDARD_SHIFT) as u16
}

/// The extended identifier field of a word.
pub open spec fn word_extended_raw(word: u32) -> u32 {
    word & EXTENDED_MASK
}

/// The identifier that a word holds: the XTD flag selects the field, and
/// only that field is read.
pub open spec fn word_ident(word: u32) -> IdValue {
    if word_is_extended(word) {
        IdValue::Extended(word_extended_raw(word))
    } else {
        IdValue::Standard(word_standard_raw(word))
    }
}

/// No bit is set outside the two flags and the identifier field that the XTD
/// flag selects.
pub open spec fn word_is_canonical(word: u32) -> bool {
    if word_is_extended(word) {
        word & 0x8000_0000 == 0
    } else {
        word & 0x8003_FFFF == 0
    }
}

/// The part of `extra` that lies outside the identifier field of `value`.
pub open spec fn stray_bits(value: IdValue, extra: u32) -> u32 {
    match value {
        IdValue::Standard(_) => extra & 0x8003_FFFF,
        IdValue::Extended(_) => extra & 0x8000_0000,
    }
}

/// Position of a word in the order of arbitration: the word with the
/// smaller rank wins the bus. The rank is a number made of four parts, the
/// most significant first: the 11 bits of the base ID, the XTD flag, the 18
/// low bits of an extended identifier (zero for a standard one), and the RTR
/// flag.
pub open spec fn word_rank(word: u32) -> int {
    let remote: int = if word_is_remote(word) { 1 } else { 0 };
    match word_ident(word) {
        IdValue::Standard(raw) => ((raw * 2) * 0x4_0000) * 2 + remote,
        IdValue::Extended(raw) => ((base_of(raw) * 2 + 1) * 0x4_0000 + (raw & 0x3_FFFF)) * 2
            + remote,
    }
}

/// The identifier read from any word is in range for its kind.
pub proof fn lemma_ident_in_range(word: u32)
    ensures
        word_ident(word).in_range(),
        word_standard_raw(word) == (word & 0x1FFC_0000) >> 18,
{
    assert((word & 0x1FFC_0000) >> 18 <= 0x7FF) by (bit_vector);
    assert(word & 0x1FFF_FFFF <= 0x1FFF_FFFF) by (bit_vector);
}

/// Packing a standard identifier gives a data frame with the XTD flag clear
/// that holds exactly that identifier, and no stray bit.
pub proof fn lemma_standard_round_trip(raw: u16)
    requires
        raw <= 0x7FF,
    ensures
        word_ident(standard_word(raw)) == IdValue::Standard(raw),
        !word_is_extended(standard_word(raw)),
        !word_is_remote(standard_word(raw)),
        word_is_canonical(standard_word(raw)),
{
    let wide: u32 = raw as u32;
    assert(((wide << 18) & 0x1FFC_0000) >> 18 == wide && (wide << 18) & 0x4000_0000 == 0
        && (wide << 18) & 0x2000_0000 == 0 && (wide << 18) & 0x8003_FFFF == 0) by (bit_vector)
        requires
            wide <= 0x7FF,
    ;
}

/// Packing an extended identifier gives a data frame with the XTD flag set
/// that holds exactly that identifier, and no stray bit.
pub proof fn lemma_extended_round_trip(raw: u32)
    requires
        raw <= 0x1FFF_FFFF,
    ensures
        word_ident(extended_word(raw)) == IdValue::Extended(raw),
        word_is_extended(extended_word(raw)),
        !word_is_remote(extended_word(raw)),
        word_is_canonical(extended_word(raw)),
{
    assert((raw | 0x4000_0000) & 0x1FFF_FFFF == raw && (raw | 0x4000_0000) & 0x4000_0000 != 0
        && (raw | 0x4000_0000) & 0x2000_0000 == 0 && (raw | 0x4000_0000) & 0x8000_0000 == 0)
        by (bit_vector)
        requires
            raw <= 0x1FFF_FFFF,
    ;
}

/// Round trip: packing any identifier in range and reading the word back
/// gives the same identifier.
pub proof fn lemma_ident_round_trip(value: IdValue)
    requires
        value.in_range(),
    ensures
        word_ident(ident_word(value)) == value,
        word_is_extended(ident_word(value)) == (value is Extended),
        !word_is_remote(ident_word(value)),
        word_is_canonical(ident_word(value)),
{
    match value {
        IdValue::Standard(raw) => lemma_standard_round_trip(raw),
        IdValue::Extended(raw) => lemma_extended_round_trip(raw),
    }
}

/// Flag independence: setting the RTR flag to any value gives a word with
/// that RTR flag, the same XTD flag, the same identifier, and the same bits
/// everywhere but at bit 29.
pub proof fn lemma_with_rtr_keeps_rest(word: u32, remote: bool)
    ensures
        word_is_remote(word_with_rtr(word, remote)) == remote,
        word_is_extended(word_with_rtr(word, remote)) == word_is_extended(word),
        word_ident(word_with_rtr(word, remote)) == word_ident(word),
        word_with_rtr(word, remote) & !0x2000_0000u32 == word & !0x2000_0000u32,
        word_is_canonical(word_with_rtr(word, remote)) == word_is_canonical(word),
{
    let set: u32 = word | 0x2000_0000;
    let clear: u32 = word & !0x2000_0000u32;
    assert(set == word | 0x2000_0000 && clear == word & !0x2000_0000u32 ==> set & 0x2000_0000 != 0
        && clear & 0x2000_0000 == 0 && set & 0x4000_0000 == word & 0x4000_0000 && clear
        & 0x4000_0000 == word & 0x4000_0000 && set & 0x1FFF_FFFF == word & 0x1FFF_FFFF && clear
        & 0x1FFF_FFFF == word & 0x1FFF_FFFF && set & 0x1FFC_0000 == word & 0x1FFC_0000 && clear
        & 0x1FFC_0000 == word & 0x1FFC_0000 && set & !0x2000_0000u32 == word & !0x2000_0000u32
        && clear & !0x2000_0000u32 == word & !0x2000_0000u32 && set & 0x8000_0000 == word
        & 0x8000_0000 && clear & 0x8000_0000 == word & 0x8000_0000 && set & 0x8003_FFFF == word
        & 0x8003_FFFF && clear & 0x8003_FFFF == word & 0x8003_FFFF) by (bit_vector);
}

/// Setting the RTR flag twice is the same as setting it once to the later
/// value; so changing the flag and then putting its first value back returns
/// the word bit for bit.
pub proof fn lemma_with_rtr_twice(word: u32, first: bool, second: bool)
    ensures
        word_with_rtr(word_with_rtr(word, first), second) == word_with_rtr(word, second),
        word_with_rtr(word, word_is_remote(word)) == word,
        word_with_rtr(word_with_rtr(word, first), word_is_remote(word)) == word,
{
    assert((word | 0x2000_0000) | 0x2000_0000 == word | 0x2000_0000) by (bit_vector);
    assert((word & !0x2000_0000u32) | 0x2000_0000 == word | 0x2000_0000) by (bit_vector);
    assert((word | 0x2000_0000) & !0x2000_0000u32 == word & !0x2000_0000u32) by (bit_vector);
    assert((word & !0x2000_0000u32) & !0x2000_0000u32 == word & !0x2000_0000u32) by (bit_vector);
    assert(word & 0x2000_0000 != 0 ==> word | 0x2000_0000 == word) by (bit_vector);
    assert(word & 0x2000_0000 == 0 ==> word & !0x2000_0000u32 == word) by (bit_vector);
}

/// Setting then clearing the RTR flag of a data frame returns the word bit
/// for bit.
pub proof fn lemma_set_then_clear_rtr(word: u32)
    requires
        !word_is_remote(word),
    ensures
        word_with_rtr(word_with_rtr(word, true), false) == word,
{
    lemma_with_rtr_twice(word, true, false);
}

/// A register rebuilt from the identifier field of `value` and the two flags
/// is the packed identifier with its RTR flag set to `remote`, and the
/// identifier read from it is `value`.
pub proof fn lemma_register_matches_packed(value: IdValue, remote: bool)
    requires
        value.in_range(),
    ensures
        register_word(ident_field(value), remote, value is Extended) == word_with_rtr(
            ident_word(value),
            remote,
        ),
        word_ident(register_word(ident_field(value), remote, value is Extended)) == value,
        word_is_remote(register_word(ident_field(value), remote, value is Extended)) == remote,
{
    let field: u32 = ident_field(value);
    assert(field <= 0x1FFF_FFFF ==> (field | 0x2000_0000) | 0 == field | 0x2000_0000 && (field | 0)
        | 0 == field & !0x2000_0000u32 && (field | 0x2000_0000) | 0x4000_0000 == (field
        | 0x4000_0000) | 0x2000_0000 && (field | 0) | 0x4000_0000 == (field | 0x4000_0000)
        & !0x2000_0000u32) by (bit_vector);
    match value {
        IdValue::Standard(raw) => {
            let wide: u32 = raw as u32;
            assert(wide << 18 <= 0x1FFF_FFFF) by (bit_vector)
                requires
                    wide <= 0x7FF,
            ;
        },
        IdValue::Extended(raw) => {},
    }
    lemma_ident_round_trip(value);
    lemma_with_rtr_keeps_rest(ident_word(value), remote);
}

/// Taking a word apart into its raw identifier bits and its two flags and
/// rebuilding it from them keeps the identifier and both flags: only bit 31
/// is lost.
pub proof fn lemma_rebuilt_keeps_meaning(word: u32)
    ensures
        register_word(word_raw_id(word), word_is_remote(word), word_is_extended(word)) == word
            & 0x7FFF_FFFF,
        word_ident(
            register_word(word_raw_id(word), word_is_remote(word), word_is_extended(word)),
        ) == word_ident(word),
        word_is_remote(
            register_word(word_raw_id(word), word_is_remote(word), word_is_extended(word)),
        ) == word_is_remote(word),
        word_is_extended(
            register_word(word_raw_id(word), word_is_remote(word), word_is_extended(word)),
        ) == word_is_extended(word),
{
    let rtr: u32 = rtr_bit(word_is_remote(word));
    let xtd: u32 = xtd_bit(word_is_extended(word));
    let rebuilt: u32 = (word & 0x1FFF_FFFF) | rtr | xtd;
    assert(rebuilt == word & 0x7FFF_FFFF && rebuilt & 0x4000_0000 == word & 0x4000_0000 && rebuilt
        & 0x2000_0000 == word & 0x2000_0000 && rebuilt & 0x1FFF_FFFF == word & 0x1FFF_FFFF
        && rebuilt & 0x1FFC_0000 == word & 0x1FFC_0000) by (bit_vector)
        requires
            rebuilt == (word & 0x1FFF_FFFF) | rtr | xtd,
            rtr == if word & 0x2000_0000 != 0 { 0x2000_0000u32 } else { 0u32 },
            xtd == if word & 0x4000_0000 != 0 { 0x4000_0000u32 } else { 0u32 },
    ;
}

/// Masking: two words with the same XTD flag that agree on the identifier
/// field which that flag selects hold the same identifier, whatever their
/// other bits are.
pub proof fn lemma_stray_bits_ignored(word: u32, other: u32)
    requires
        word & 0x4000_0000 == other & 0x4000_0000,
        word_is_extended(word) ==> word & 0x1FFF_FFFF == other & 0x1FFF_FFFF,
        !word_is_extended(word) ==> word & 0x1FFC_0000 == other & 0x1FFC_0000,
    ensures
        word_ident(word) == word_ident(other),
{
}

/// Masking: bits added to a register outside the field of its identifier
/// (bit 31, and below a standard identifier bits 0 to 17) do not change the
/// identifier that is read from it, nor its flags.
pub proof fn lemma_extra_bits_ignored(value: IdValue, remote: bool, extra: u32)
    requires
        value.in_range(),
    ensures
        word_ident(
            register_word(ident_field(value) | stray_bits(value, extra), remote, value is Extended),
        ) == value,
        word_is_remote(
            register_word(ident_field(value) | stray_bits(value, extra), remote, value is Extended),
        ) == remote,
        word_is_extended(
            register_word(ident_field(value) | stray_bits(value, extra), remote, value is Extended),
        ) == (value is Extended),
{
    let field: u32 = ident_field(value);
    let stray: u32 = stray_bits(value, extra);
    let rtr: u32 = rtr_bit(remote);
    let xtd: u32 = xtd_bit(value is Extended);
    let clean: u32 = field | rtr | xtd;
    let dirty: u32 = (field | stray) | rtr | xtd;
    lemma_register_matches_packed(value, remote);
    lemma_ident_round_trip(value);
    lemma_with_rtr_keeps_rest(ident_word(value), remote);
    assert(dirty & 0x4000_0000 == clean & 0x4000_0000 && dirty & 0x2000_0000 == clean
        & 0x2000_0000 && dirty & 0x1FFC_0000 == clean & 0x1FFC_0000 && (stray == extra
        & 0x8000_0000 ==> dirty & 0x1FFF_FFFF == clean & 0x1FFF_FFFF)) by (bit_vector)
        requires
            clean == field | rtr | xtd,
            dirty == (field | stray) | rtr | xtd,
            stray == extra & 0x8000_0000 || stray == extra & 0x8003_FFFF,
    ;
}

/// A 29-bit value is its base ID times 2^18 plus its 18 low bits.
pub proof fn lemma_split_extended(raw: u32)
    requires
        raw <= 0x1FFF_FFFF,
    ensures
        raw == base_of(raw) * 0x4_0000 + (raw & 0x3_FFFF),
        raw & 0x3_FFFF < 0x4_0000,
        base_of(raw) <= 0x7FF,
{
    lemma_base_in_range(raw);
    assert(raw == (raw >> 18) * 0x4_0000 + (raw & 0x3_FFFF) && raw & 0x3_FFFF < 0x4_0000)
        by (bit_vector)
        requires
            raw <= 0x1FFF_FFFF,
    ;
}

} // verus!
