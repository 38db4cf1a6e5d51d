//! Parsing of human-readable hotkey strings of the form `MOD[+MOD...]+KEY`
//! (for example "Alt+M" or "CAPSLOCK") into a (modifier mask, key code) pair.
//! Tokens are separated by '+', trimmed and matched case-insensitively; an
//! unrecognized token anywhere makes the whole binding invalid.

use vstd::prelude::*;

use vstd::string::StrSliceExecFns;
use vstd::string::StringSliceAdditionalSpecFns;

verus! {

/// Modifier-mask bit for the Alt key.
pub const MOD_ALT: u32 = 0x0001;
/// Modifier-mask bit for the Ctrl key.
pub const MOD_CONTROL: u32 = 0x0002;
/// Modifier-mask bit for the Shift key.
pub const MOD_SHIFT: u32 = 0x0004;
/// Modifier-mask bit for the Windows key.
pub const MOD_WIN: u32 = 0x0008;

/// ASCII whitespace stripped from both ends of every token.
pub open spec fn spec_is_space(b: u8) -> bool {
    b == 0x20 || b == 0x09 || b == 0x0a || b == 0x0b || b == 0x0c || b == 0x0d
}

/// ASCII upper-casing of one byte; anything but a lower-case letter is kept.
pub open spec fn spec_upper(b: u8) -> u8 {
    if 0x61 <= b && b <= 0x7a {
        (b - 0x20) as u8
    } else {
        b
    }
}

/// `s` with leading whitespace removed.
pub open spec fn spec_trim_front(s: Seq<u8>) -> Seq<u8>
    decreases s.len(),
{
    if s.len() > 0 && spec_is_space(s[0]) {
        spec_trim_front(s.drop_first())
    } else {
        s
    }
}

/// `s` with trailing whitespace removed.
pub open spec fn spec_trim_back(s: Seq<u8>) -> Seq<u8>
    decreases s.len(),
{
    if s.len() > 0 && spec_is_space(s.last()) {
        spec_trim_back(s.drop_last())
    } else {
        s
    }
}

/// The sequence of upper-cased bytes of `s`.
pub open spec fn spec_upper_seq(s: Seq<u8>) -> Seq<u8> {
    s.map_values(|b: u8| spec_upper(b))
}

/// A token in canonical form: trimmed at both ends, then upper-cased.
pub open spec fn spec_norm_token(s: Seq<u8>) -> Seq<u8> {
    spec_upper_seq(spec_trim_back(spec_trim_front(s)))
}

/// Splitting on '+' with the token collected so far in `cur`.
pub open spec fn spec_split_acc(s: Seq<u8>, cur: Seq<u8>) -> Seq<Seq<u8>>
    decreases s.len(),
{
    if s.len() == 0 {
        seq![cur]
    } else if s[0] == 0x2b {  // '+'
        seq![cur] + spec_split_acc(s.drop_first(), seq![])
    } else {
        spec_split_acc(s.drop_first(), cur.push(s[0]))
    }
}

/// The '+'-separated raw tokens of `s`; always at least one, possibly empty.
pub open spec fn spec_split_plus(s: Seq<u8>) -> Seq<Seq<u8>> {
    spec_split_acc(s, seq![])
}

/// The modifier-mask bit of one canonical token, if it names a modifier.
pub open spec fn spec_modifier_flag(t: Seq<u8>) -> Option<u32> {
    // "CTRL" or "CONTROL"
    if t == seq![0x43u8, 0x54, 0x52, 0x4c] || t == seq![0x43u8, 0x4f, 0x4e, 0x54, 0x52, 0x4f, 0x4c] {
        Some(MOD_CONTROL)
    } else if t == seq![0x41u8, 0x4c, 0x54] {  // "ALT"
        Some(MOD_ALT)
    } else if t == seq![0x53u8, 0x48, 0x49, 0x46, 0x54] {  // "SHIFT"
        Some(MOD_SHIFT)
    } else if t == seq![0x57u8, 0x49, 0x4e] || t == seq![0x57u8, 0x49, 0x4e, 0x44, 0x4f, 0x57, 0x53] {  // "WIN" or "WINDOWS"
        Some(MOD_WIN)
    } else {
        None
    }
}

/// The combined modifier mask of a sequence of raw modifier tokens, or
/// nothing if any token fails to name a modifier.
pub open spec fn spec_modifier_mask(parts: Seq<Seq<u8>>) -> Option<u32>
    decreases parts.len(),
{
    if parts.len() == 0 {
        Some(0)
    } else {
        match spec_modifier_flag(spec_norm_token(parts[0])) {
            Some(f) => match spec_modifier_mask(parts.drop_first()) {
                Some(m) => Some(f | m),
                Option::None => Option::None,
            },
            Option::None => Option::None,
        }
    }
}

/// The virtual-key code of one canonical key token: the letters A-Z carry
/// their ASCII code, F1-F12 the codes 0x70-0x7B, and the named keys their
/// fixed codes.
pub open spec fn spec_key_code(t: Seq<u8>) -> Option<u32> {
    if t.len() == 1 && 0x41 <= t[0] && t[0] <= 0x5a {  // 'A'..'Z'
        Some(t[0] as u32)
    } else if t.len() == 2 && t[0] == 0x46 && 0x31 <= t[1] && t[1] <= 0x39 {  // "F1".."F9"
        Some((0x70 + t[1] - 0x31) as u32)
    } else if t.len() == 3 && t[0] == 0x46 && t[1] == 0x31 && 0x30 <= t[2] && t[2] <= 0x32 {  // "F10".."F12"
        Some((0x79 + t[2] - 0x30) as u32)
    } else if t == seq![0x53u8, 0x50, 0x41, 0x43, 0x45] {  // "SPACE"
        Some(0x20)
    } else if t == seq![0x45u8, 0x4e, 0x54, 0x45, 0x52] {  // "ENTER"
        Some(0x0d)
    } else if t == seq![0x45u8, 0x53, 0x43] {  // "ESC"
        Some(0x1b)
    } else if t == seq![0x54u8, 0x41, 0x42] {  // "TAB"
        Some(0x09)
    } else if t == seq![0x42u8, 0x41, 0x43, 0x4b, 0x53, 0x50, 0x41, 0x43, 0x45] {  // "BACKSPACE"
        Some(0x08)
    } else if t == seq![0x43u8, 0x41, 0x50, 0x53, 0x4c, 0x4f, 0x43, 0x4b] {  // "CAPSLOCK"
        Some(0x14)
    } else {
        Option::None
    }
}

/// What parsing a hotkey string returns: every token but the last must name a
/// modifier, the last must name a key; otherwise there is no binding.
pub open spec fn spec_parse_hotkey(s: Seq<u8>) -> Option<(u32, u32)> {
    let parts = spec_split_plus(s);
    let mods = spec_modifier_mask(parts.drop_last());
    let key = spec_key_code(spec_norm_token(parts.last()));
    match (mods, key) {
        (Some(m), Some(k)) => Some((m, k)),
        _ => Option::None,
    }
}

/// The element-wise view of a vector of byte vectors.
pub open spec fn views_of(parts: Seq<Vec<u8>>) -> Seq<Seq<u8>> {
    parts.map_values(|p: Vec<u8>| p@)
}

/// Splitting always yields at least one token.
proof fn lemma_split_acc_len(s: Seq<u8>, cur: Seq<u8>)
    ensures
        spec_split_acc(s, cur).len() >= 1,
    decreases s.len(),
{
    if s.len() == 0 {
    } else if s[0] == 0x2b {
    } else {
        lemma_split_acc_len(s.drop_first(), cur.push(s[0]));
    }
}

/// If the tokens from position `i` on fail to form a modifier mask, the whole
/// token sequence fails as well.
proof fn lemma_modifier_mask_none(parts: Seq<Seq<u8>>, i: int)
    requires
        0 <= i <= parts.len(),
        spec_modifier_mask(parts.subrange(i, parts.len() as int)) is None,
    ensures
        spec_modifier_mask(parts) is None,
    decreases i,
{
    if i == 0 {
        assert(parts.subrange(0, parts.len() as int) =~= parts);
    } else {
        assert(parts.subrange(i - 1, parts.len() as int).drop_first() =~= parts.subrange(
            i,
            parts.len() as int,
        ));
        lemma_modifier_mask_none(parts, i - 1);
    }
}

/// Exec counterpart of [`spec_is_space`].
fn is_space_byte(b: u8) -> (r: bool)
    ensures
        r == spec_is_space(b),
{
    b == 0x20 || b == 0x09 || b == 0x0a || b == 0x0b || b == 0x0c || b == 0x0d
}

/// Exec counterpart of [`spec_upper`].
fn upper_byte(b: u8) -> (r: u8)
    ensures
        r == spec_upper(b),
{
    if 0x61 <= b && b <= 0x7a {
        b - 0x20
    } else {
        b
    }
}

/// Byte-wise comparison of a token with a fixed pattern.
fn token_is(t: &Vec<u8>, pat: &[u8]) -> (r: bool)
    ensures
        r == (t@ == pat@),
{
    if t.len() != pat.len() {
        return false;
    }
    let mut i: usize = 0;
    while i < t.len()
        invariant
            i <= t@.len(),
            t@.len() == pat@.len(),
            forall|j: int| 0 <= j < i ==> t@[j] == pat@[j],
        decreases t@.len() - i,
    {
        if t[i] != pat[i] {
            return false;
        }
        i += 1;
    }
    assert(t@ =~= pat@);
    true
}

/// Split `s` on '+' into raw tokens.
fn split_plus(s: &Vec<u8>) -> (parts: Vec<Vec<u8>>)
    ensures
        views_of(parts@) == spec_split_plus(s@),
{
    let mut parts: Vec<Vec<u8>> = Vec::new();
    let mut cur: Vec<u8> = Vec::new();
    let mut i: usize = 0;
    proof {
        assert(s@.subrange(0, s@.len() as int) =~= s@);
        assert(views_of(parts@) + spec_split_acc(s@, cur@) =~= spec_split_acc(s@, cur@));
    }
    while i < s.len()
        invariant
            i <= s@.len(),
            spec_split_plus(s@) == views_of(parts@) + spec_split_acc(
                s@.subrange(i as int, s@.len() as int),
                cur@,
            ),
        decreases s@.len() - i,
    {
        let ghost rest = s@.subrange(i as int, s@.len() as int);
        let b = s[i];
        proof {
            assert(rest[0] == s@[i as int]);
            assert(rest.drop_first() =~= s@.subrange(i + 1, s@.len() as int));
        }
        if b == 0x2b {
            let ghost old_parts = parts@;
            let ghost old_cur = cur@;
            parts.push(cur);
            cur = Vec::new();
            proof {
                assert(views_of(parts@) =~= views_of(old_parts) + seq![old_cur]);
                assert(views_of(old_parts) + spec_split_acc(rest, old_cur) =~= (views_of(
                    old_parts,
                ) + seq![old_cur]) + spec_split_acc(rest.drop_first(), seq![]));
            }
        } else {
            cur.push(b);
        }
        i += 1;
    }
    proof {
        assert(s@.subrange(i as int, s@.len() as int) =~= Seq::<u8>::empty());
    }
    let ghost old_parts = parts@;
    let ghost old_cur = cur@;
    parts.push(cur);
    proof {
        assert(views_of(parts@) =~= views_of(old_parts) + seq![old_cur]);
    }
    parts
}

/// Bring a raw token into canonical form: trim both ends, then upper-case.
fn norm_token(t: &Vec<u8>) -> (r: Vec<u8>)
    ensures
        r@ == spec_norm_token(t@),
{
    let n = t.len();
    let mut start: usize = 0;
    proof {
        assert(t@.subrange(0, n as int) =~= t@);
    }
    while start < n && is_space_byte(t[start])
        invariant
            start <= n,
            n == t@.len(),
            spec_trim_front(t@) == spec_trim_front(t@.subrange(start as int, n as int)),
        decreases n - start,
    {
        proof {
            assert(t@.subrange(start as int, n as int)[0] == t@[start as int]);
            assert(t@.subrange(start as int, n as int).drop_first() =~= t@.subrange(
                start + 1,
                n as int,
            ));
        }
        start += 1;
    }
    proof {
        // The loop left either an empty remainder or one with a non-space head,
        // so trimming the front is complete.
        assert(spec_trim_front(t@) =~= t@.subrange(start as int, n as int));
    }
    let mut end: usize = n;
    while end > start && is_space_byte(t[end - 1])
        invariant
            start <= end <= n,
            n == t@.len(),
            spec_trim_front(t@) == t@.subrange(start as int, n as int),
            spec_trim_back(t@.subrange(start as int, n as int)) == spec_trim_back(
                t@.subrange(start as int, end as int),
            ),
        decreases end,
    {
        proof {
            let cut = t@.subrange(start as int, end as int);
            assert(cut.last() == t@[end - 1]);
            assert(cut.drop_last() =~= t@.subrange(start as int, end - 1));
        }
        end -= 1;
    }
    proof {
        assert(spec_trim_back(t@.subrange(start as int, end as int)) =~= t@.subrange(
            start as int,
            end as int,
        ));
    }
    let ghost trimmed = t@.subrange(start as int, end as int);
    let mut r: Vec<u8> = Vec::new();
    let mut i: usize = start;
    proof {
        assert(trimmed.subrange(0, 0) =~= Seq::<u8>::empty());
        assert(r@ =~= spec_upper_seq(t@.subrange(start as int, start as int)));
    }
    while i < end
        invariant
            start <= i <= end <= n,
            n == t@.len(),
            r@ == spec_upper_seq(t@.subrange(start as int, i as int)),
        decreases end - i,
    {
        let b = upper_byte(t[i]);
        r.push(b);
        proof {
            assert(t@.subrange(start as int, i + 1) =~= t@.subrange(start as int, i as int).push(
                t@[i as int],
            ));
            assert(spec_upper_seq(t@.subrange(start as int, i + 1)) =~= spec_upper_seq(
                t@.subrange(start as int, i as int),
            ).push(spec_upper(t@[i as int])));
        }
        i += 1;
    }
    r
}

/// The modifier-mask bit of a canonical token, if it names a modifier.
fn modifier_flag_of_token(t: &Vec<u8>) -> (r: Option<u32>)
    ensures
        r == spec_modifier_flag(t@),
{
    let ctrl: &[u8] = &[0x43, 0x54, 0x52, 0x4c];  // "CTRL"
    let control: &[u8] = &[0x43, 0x4f, 0x4e, 0x54, 0x52, 0x4f, 0x4c];  // "CONTROL"
    let alt: &[u8] = &[0x41, 0x4c, 0x54];  // "ALT"
    let shift: &[u8] = &[0x53, 0x48, 0x49, 0x46, 0x54];  // "SHIFT"
    let win: &[u8] = &[0x57, 0x49, 0x4e];  // "WIN"
    let windows: &[u8] = &[0x57, 0x49, 0x4e, 0x44, 0x4f, 0x57, 0x53];  // "WINDOWS"
    proof {
        assert(ctrl@ =~= seq![0x43u8, 0x54, 0x52, 0x4c]);
        assert(control@ =~= seq![0x43u8, 0x4f, 0x4e, 0x54, 0x52, 0x4f, 0x4c]);
        assert(alt@ =~= seq![0x41u8, 0x4c, 0x54]);
        assert(shift@ =~= seq![0x53u8, 0x48, 0x49, 0x46, 0x54]);
        assert(win@ =~= seq![0x57u8, 0x49, 0x4e]);
        assert(windows@ =~= seq![0x57u8, 0x49, 0x4e, 0x44, 0x4f, 0x57, 0x53]);
    }
    if token_is(t, ctrl) || token_is(t, control) {
        Some(MOD_CONTROL)
    } else if token_is(t, alt) {
        Some(MOD_ALT)
    } else if token_is(t, shift) {
        Some(MOD_SHIFT)
    } else if token_is(t, win) || token_is(t, windows) {
        Some(MOD_WIN)
    } else {
        None
    }
}

/// The virtual-key code of a canonical token, if it names a key.
fn key_code_of_token(t: &Vec<u8>) -> (r: Option<u32>)
    ensures
        r == spec_key_code(t@),
{
    if t.len() == 1 {
        let b = t[0];
        if 0x41 <= b && b <= 0x5a {
            return Some(b as u32);
        }
    }
    if t.len() == 2 && t[0] == 0x46 {
        let b = t[1];
        if 0x31 <= b && b <= 0x39 {
            return Some(0x70 + (b - 0x31) as u32);
        }
    }
    if t.len() == 3 && t[0] == 0x46 && t[1] == 0x31 {
        let b = t[2];
        if 0x30 <= b && b <= 0x32 {
            return Some(0x79 + (b - 0x30) as u32);
        }
    }
    let space: &[u8] = &[0x53, 0x50, 0x41, 0x43, 0x45];  // "SPACE"
    let enter: &[u8] = &[0x45, 0x4e, 0x54, 0x45, 0x52];  // "ENTER"
    let esc: &[u8] = &[0x45, 0x53, 0x43];  // "ESC"
    let tab: &[u8] = &[0x54, 0x41, 0x42];  // "TAB"
    let backspace: &[u8] = &[0x42, 0x41, 0x43, 0x4b, 0x53, 0x50, 0x41, 0x43, 0x45];  // "BACKSPACE"
    let capslock: &[u8] = &[0x43, 0x41, 0x50, 0x53, 0x4c, 0x4f, 0x43, 0x4b];  // "CAPSLOCK"
    proof {
        assert(space@ =~= seq![0x53u8, 0x50, 0x41, 0x43, 0x45]);
        assert(enter@ =~= seq![0x45u8, 0x4e, 0x54, 0x45, 0x52]);
        assert(esc@ =~= seq![0x45u8, 0x53, 0x43]);
        assert(tab@ =~= seq![0x54u8, 0x41, 0x42]);
        assert(backspace@ =~= seq![0x42u8, 0x41, 0x43, 0x4b, 0x53, 0x50, 0x41, 0x43, 0x45]);
        assert(capslock@ =~= seq![0x43u8, 0x41, 0x50, 0x53, 0x4c, 0x4f, 0x43, 0x4b]);
    }
    if token_is(t, space) {
        Some(0x20)
    } else if token_is(t, enter) {
        Some(0x0d)
    } else if token_is(t, esc) {
        Some(0x1b)
    } else if token_is(t, tab) {
        Some(0x09)
    } else if token_is(t, backspace) {
        Some(0x08)
    } else if token_is(t, capslock) {
        Some(0x14)
    } else {
        None
    }
}

/// Parse a hotkey given as raw bytes.
pub fn parse_hotkey_bytes(s: &Vec<u8>) -> (r: Option<(u32, u32)>)
    ensures
        r == spec_parse_hotkey(s@),
{
    let parts = split_plus(s);
    proof {
        lemma_split_acc_len(s@, seq![]);
    }
    let ghost vm = views_of(parts@);
    let n = parts.len();
    assert(n >= 1);
    let key_tok = norm_token(&parts[n - 1]);
    let key_code = key_code_of_token(&key_tok);
    assert(vm.last() == parts@[n - 1]@);
    let key_code = match key_code {
        Some(k) => k,
        None => {
            proof {
                assert(vm.len() == n);
                assert(key_tok@ == spec_norm_token(vm.last()));
                assert(spec_key_code(spec_norm_token(spec_split_plus(s@).last())) is None);
                assert(spec_parse_hotkey(s@) is None);
            }
            return None;
        },
    };
    let ghost mods_seq = vm.drop_last();
    proof {
        assert(mods_seq =~= vm.subrange(0, n - 1));
        assert(vm.subrange(n - 1, n - 1) =~= Seq::<Seq<u8>>::empty());
    }
    let mut mask: u32 = 0;
    let mut i: usize = n - 1;
    while i > 0
        invariant
            i <= n - 1,
            n == parts@.len(),
            n >= 1,
            vm == views_of(parts@),
            vm == spec_split_plus(s@),
            vm.len() == n,
            mods_seq == vm.subrange(0, n - 1),
            spec_modifier_mask(vm.subrange(i as int, n - 1)) == Some(mask),
        decreases i,
    {
        i -= 1;
        let tok = norm_token(&parts[i]);
        proof {
            assert(vm.subrange(i as int, n - 1)[0] == vm[i as int]);
            assert(vm.subrange(i as int, n - 1).drop_first() =~= vm.subrange(i + 1, n - 1));
            assert(vm[i as int] == parts@[i as int]@);
        }
        match modifier_flag_of_token(&tok) {
            Some(f) => {
                mask = f | mask;
            },
            None => {
                proof {
                    assert(spec_modifier_mask(vm.subrange(i as int, n - 1)) is None);
                    assert(mods_seq.subrange(i as int, mods_seq.len() as int) =~= vm.subrange(
                        i as int,
                        n - 1,
                    ));
                    lemma_modifier_mask_none(mods_seq, i as int);
                    assert(vm.drop_last() =~= mods_seq);
                    assert(spec_parse_hotkey(s@) is None);
                }
                return None;
            },
        }
    }
    proof {
        assert(vm.subrange(0, n - 1) =~= mods_seq);
    }
    Some((mask, key_code))
}

/// Parse a human-readable hotkey string into its (modifier mask, key code)
/// pair, or nothing if any token is unrecognized.
pub fn parse_hotkey(hotkey_str: &str) -> (r: Option<(u32, u32)>)
    ensures
        r == spec_parse_hotkey(hotkey_str.spec_bytes()),
{
    let bytes = hotkey_str.as_bytes_vec();
    parse_hotkey_bytes(&bytes)
}

} // verus!
