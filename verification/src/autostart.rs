//! Decision logic around the run-at-startup registry entry: whether an entry
//! is present at all, and whether the entry and the running executable's path
//! point at each other, which is how an autostart launch is recognized.

use vstd::prelude::*;

use vstd::string::StrSliceExecFns;

verus! {

/// True when `needle` occurs contiguously in `hay`.
pub open spec fn spec_contains_seq(hay: Seq<char>, needle: Seq<char>) -> bool {
    exists|i: int|
        0 <= i <= hay.len() - needle.len() && #[trigger] hay.subrange(i, i + needle.len())
            == needle
}

/// Does `needle` occur at position `i` of `hay`?
fn match_at(hay: &str, needle: &str, i: usize) -> (r: bool)
    requires
        i + needle@.len() <= hay@.len(),
    ensures
        r == (hay@.subrange(i as int, i + needle@.len()) == needle@),
{
    let n = hay.unicode_len();
    let m = needle.unicode_len();
    let mut j: usize = 0;
    while j < m
        invariant
            j <= m,
            n == hay@.len(),
            m == needle@.len(),
            i + m <= n,
            forall|k: int| 0 <= k < j ==> hay@[i + k] == needle@[k],
        decreases m - j,
    {
        if hay.get_char(i + j) != needle.get_char(j) {
            assert(hay@.subrange(i as int, i + needle@.len())[j as int] == hay@[i + j]);
            return false;
        }
        j += 1;
    }
    assert(hay@.subrange(i as int, i + needle@.len()) =~= needle@);
    true
}

/// Substring test at the character level.
fn contains_str(hay: &str, needle: &str) -> (r: bool)
    ensures
        r == spec_contains_seq(hay@, needle@),
{
    let n = hay.unicode_len();
    let m = needle.unicode_len();
    if m > n {
        return false;
    }
    let mut i: usize = 0;
    loop
        invariant
            m <= n,
            n == hay@.len(),
            m == needle@.len(),
            i <= n - m,
            forall|k: int|
                0 <= k < i ==> #[trigger] hay@.subrange(k, k + needle@.len()) != needle@,
        ensures
            forall|k: int|
                0 <= k <= n - m ==> #[trigger] hay@.subrange(k, k + needle@.len()) != needle@,
        decreases n - m - i,
    {
        if match_at(hay, needle, i) {
            return true;
        }
        if i == n - m {
            break;
        }
        i += 1;
    }
    false
}

/// A non-empty registry value under the run key means an autostart entry is
/// present.
pub fn registry_entry_present(value: &str) -> (r: bool)
    ensures
        r == (value@.len() > 0),
{
    !value.is_empty()
}

/// The autostart entry and the running executable match when either path
/// contains the other; a launch is then taken for an autostart launch.
pub fn autostart_entry_matches(registry_value: &str, current_path: &str) -> (r: bool)
    ensures
        r == (spec_contains_seq(registry_value@, current_path@) || spec_contains_seq(
            current_path@,
            registry_value@,
        )),
{
    contains_str(registry_value, current_path) || contains_str(current_path, registry_value)
}

} // verus!
