//! The locale model: the two managed language identifiers, which identifiers
//! the engine manages at all, and the canonical eight-digit keyboard-layout
//! identifier string used by the load-then-activate fallback.

use vstd::prelude::*;

use crate::config::ImeMode;

verus! {

/// Language identifier of the primary-language (Simplified Chinese) layout.
pub const CHINESE_LANG_ID: u16 = 0x0804;
/// Language identifier of the alternate (US English) layout.
pub const ENGLISH_LANG_ID: u16 = 0x0409;

/// The target language identifier of a desired mode.
pub open spec fn spec_target_lang_id(mode: ImeMode) -> u16 {
    match mode {
        ImeMode::ChineseOnly => CHINESE_LANG_ID,
        ImeMode::EnglishOnly => ENGLISH_LANG_ID,
    }
}

/// Exec counterpart of [`spec_target_lang_id`].
pub fn target_lang_id(mode: ImeMode) -> (r: u16)
    ensures
        r == spec_target_lang_id(mode),
{
    match mode {
        ImeMode::ChineseOnly => CHINESE_LANG_ID,
        ImeMode::EnglishOnly => ENGLISH_LANG_ID,
    }
}

/// The primary-language subtag of a language identifier: its low ten bits.
pub open spec fn spec_primary_language(lang_id: u16) -> u16 {
    lang_id & 0x3ff
}

/// Exec counterpart of [`spec_primary_language`].
pub fn primary_language(lang_id: u16) -> (r: u16)
    ensures
        r == spec_primary_language(lang_id),
{
    lang_id & 0x3ff
}

/// A language identifier is managed when its primary-language subtag belongs
/// to the controlled pair (Chinese or English). Any other active locale is
/// left untouched, so unrelated input setups are never disturbed.
pub open spec fn spec_is_managed_lang(lang_id: u16) -> bool {
    ||| spec_primary_language(lang_id) == spec_primary_language(CHINESE_LANG_ID)
    ||| spec_primary_language(lang_id) == spec_primary_language(ENGLISH_LANG_ID)
}

/// Exec counterpart of [`spec_is_managed_lang`].
pub fn is_managed_lang(lang_id: u16) -> (r: bool)
    ensures
        r == spec_is_managed_lang(lang_id),
{
    let p = primary_language(lang_id);
    p == primary_language(CHINESE_LANG_ID) || p == primary_language(ENGLISH_LANG_ID)
}

/// The ASCII code of the upper-case hexadecimal digit for `n`.
pub open spec fn spec_hex_digit(n: u16) -> u8
    recommends
        n < 16,
{
    if n < 10 {
        (0x30 + n) as u8
    } else {
        (0x37 + n) as u8
    }
}

/// Exec counterpart of [`spec_hex_digit`].
fn hex_digit(n: u16) -> (r: u8)
    requires
        n < 16,
    ensures
        r == spec_hex_digit(n),
{
    if n < 10 {
        (0x30 + n) as u8
    } else {
        (0x37 + n) as u8
    }
}

/// The canonical keyboard-layout identifier string of a language identifier:
/// eight ASCII hexadecimal digits, e.g. "00000804".
pub open spec fn spec_klid(lang_id: u16) -> Seq<u8> {
    seq![
        0x30u8,
        0x30u8,
        0x30u8,
        0x30u8,
        spec_hex_digit((lang_id >> 12) & 0xf),
        spec_hex_digit((lang_id >> 8) & 0xf),
        spec_hex_digit((lang_id >> 4) & 0xf),
        spec_hex_digit(lang_id & 0xf),
    ]
}

/// The ASCII bytes of the canonical keyboard-layout identifier string for
/// `lang_id`, as passed to the explicit layout-loading fallback.
pub fn klid_string(lang_id: u16) -> (r: Vec<u8>)
    ensures
        r@ == spec_klid(lang_id),
{
    assert((lang_id >> 12) & 0xf < 16) by (bit_vector);
    assert((lang_id >> 8) & 0xf < 16) by (bit_vector);
    assert((lang_id >> 4) & 0xf < 16) by (bit_vector);
    assert(lang_id & 0xf < 16) by (bit_vector);
    let mut r: Vec<u8> = Vec::new();
    r.push(0x30);
    r.push(0x30);
    r.push(0x30);
    r.push(0x30);
    r.push(hex_digit((lang_id >> 12) & 0xf));
    r.push(hex_digit((lang_id >> 8) & 0xf));
    r.push(hex_digit((lang_id >> 4) & 0xf));
    r.push(hex_digit(lang_id & 0xf));
    assert(r@ =~= spec_klid(lang_id));
    r
}

} // verus!
