use vstd::prelude::*;

verus! {

/// The Unicode whitespace characters (the White_Space property) stripped
/// from either end of a locale tag.
pub open spec fn is_space(c: char) -> bool {
    ||| 9 <= c as int <= 13
    ||| c == ' '
    ||| c == '\u{85}'
    ||| c == '\u{a0}'
    ||| c == '\u{1680}'
    ||| 0x2000 <= c as int <= 0x200a
    ||| c == '\u{2028}'
    ||| c == '\u{2029}'
    ||| c == '\u{202f}'
    ||| c == '\u{205f}'
    ||| c == '\u{3000}'
}

/// First index at or after `i` that holds a non-space character.
pub open spec fn first_non_space(s: Seq<char>, i: int) -> int
    decreases s.len() - i,
{
    if i < 0 || i >= s.len() {
        i
    } else if is_space(s[i]) {
        first_non_space(s, i + 1)
    } else {
        i
    }
}

/// Last index at or before `e` such that `s[e' - 1]` is non-space, never
/// falling below `lo`.
pub open spec fn last_non_space(s: Seq<char>, e: int, lo: int) -> int
    decreases e - lo,
{
    if e <= lo || e > s.len() {
        e
    } else if is_space(s[e - 1]) {
        last_non_space(s, e - 1, lo)
    } else {
        e
    }
}

pub open spec fn matches_letter(c: char, lower: char, upper: char) -> bool {
    c == lower || c == upper
}

/// Whether a locale tag collapses to the Chinese bucket: after trimming
/// whitespace, mapping underscores to hyphens and lowering ASCII case, the tag
/// reads `zh` or `zh-cn`.
pub open spec fn locale_is_zh(s: Seq<char>) -> bool {
    let lo = first_non_space(s, 0);
    let hi = last_non_space(s, s.len() as int, lo);
    ||| {
        &&& hi - lo == 2
        &&& matches_letter(s[lo], 'z', 'Z')
        &&& matches_letter(s[lo + 1], 'h', 'H')
    }
    ||| {
        &&& hi - lo == 5
        &&& matches_letter(s[lo], 'z', 'Z')
        &&& matches_letter(s[lo + 1], 'h', 'H')
        &&& (s[lo + 2] == '-' || s[lo + 2] == '_')
        &&& matches_letter(s[lo + 3], 'c', 'C')
        &&& matches_letter(s[lo + 4], 'n', 'N')
    }
}

/// The two canonical locale buckets.
pub open spec fn spec_normalize_locale(s: Seq<char>) -> Seq<char> {
    if locale_is_zh(s) {
        "zh-CN"@
    } else {
        "en-US"@
    }
}

fn is_space_char(c: char) -> (r: bool)
    ensures
        r == is_space(c),
{
    let v = c as u32;
    (9 <= v && v <= 13) || c == ' ' || c == '\u{85}' || c == '\u{a0}' || c == '\u{1680}' || (0x2000
        <= v && v <= 0x200a) || c == '\u{2028}' || c == '\u{2029}' || c == '\u{202f}' || c
        == '\u{205f}' || c == '\u{3000}'
}

/// Whether a locale tag falls in the Chinese bucket.
pub fn is_zh_locale(locale: &str) -> (r: bool)
    ensures
        r == locale_is_zh(locale@),
{
    let n = locale.unicode_len();
    let mut lo: usize = 0;
    while lo < n && is_space_char(locale.get_char(lo))
        invariant
            0 <= lo <= n,
            n == locale@.len(),
            first_non_space(locale@, 0) == first_non_space(locale@, lo as int),
        decreases n - lo,
    {
        lo = lo + 1;
    }
    assert(first_non_space(locale@, 0) == lo);
    let mut hi: usize = n;
    while hi > lo && is_space_char(locale.get_char(hi - 1))
        invariant
            lo <= hi <= n,
            n == locale@.len(),
            last_non_space(locale@, n as int, lo as int) == last_non_space(
                locale@,
                hi as int,
                lo as int,
            ),
        decreases hi,
    {
        hi = hi - 1;
    }
    assert(last_non_space(locale@, n as int, lo as int) == hi);
    let len = hi - lo;
    if len == 2 {
        let c0 = locale.get_char(lo);
        let c1 = locale.get_char(lo + 1);
        (c0 == 'z' || c0 == 'Z') && (c1 == 'h' || c1 == 'H')
    } else if len == 5 {
        let c0 = locale.get_char(lo);
        let c1 = locale.get_char(lo + 1);
        let c2 = locale.get_char(lo + 2);
        let c3 = locale.get_char(lo + 3);
        let c4 = locale.get_char(lo + 4);
        (c0 == 'z' || c0 == 'Z') && (c1 == 'h' || c1 == 'H') && (c2 == '-' || c2 == '_') && (c3
            == 'c' || c3 == 'C') && (c4 == 'n' || c4 == 'N')
    } else {
        false
    }
}

/// Collapses a locale tag to one of the two recognized buckets: `zh-CN` for
/// the Chinese aliases, `en-US` for everything else.
pub fn normalize_locale(locale: &str) -> (r: &'static str)
    ensures
        r@ == spec_normalize_locale(locale@),
        locale_is_zh(locale@) ==> r@ == "zh-CN"@,
        !locale_is_zh(locale@) ==> r@ == "en-US"@,
{
    if is_zh_locale(locale) {
        "zh-CN"
    } else {
        "en-US"
    }
}

} // verus!
