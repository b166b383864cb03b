//! Character-level model of the trimming and ASCII lowercasing that the
//! configuration codec applies to keys and setting values.

use vstd::prelude::*;

verus! {

/// Whitespace recognized when trimming configuration keys and values: the
/// Unicode white-space set of `char::is_whitespace` — the ASCII control
/// whitespaces and space, next line, no-break space, ogham space mark, the
/// Unicode space separators, and the line and paragraph separators.
pub open spec fn is_config_ws(c: char) -> bool {
    (0x09 <= c as u32 && c as u32 <= 0x0D) || c as u32 == 0x20 || c as u32 == 0x85 || c as u32
        == 0xA0 || c as u32 == 0x1680 || (0x2000 <= c as u32 && c as u32 <= 0x200A) || c as u32
        == 0x2028 || c as u32 == 0x2029 || c as u32 == 0x202F || c as u32 == 0x205F || c as u32
        == 0x3000
}

/// Whether `c` is an ASCII uppercase letter.
pub open spec fn is_ascii_upper(c: char) -> bool {
    65 <= c as u32 && c as u32 <= 90
}

/// ASCII lowercasing of a single character.
pub open spec fn lower_char(c: char) -> char {
    if is_ascii_upper(c) {
        (((c as u32) + 32) as u8) as char
    } else {
        c
    }
}

/// ASCII lowercasing of a character sequence.
pub open spec fn lower_seq(s: Seq<char>) -> Seq<char> {
    s.map_values(|c: char| lower_char(c))
}

/// `s` with its leading whitespace removed.
pub open spec fn trim_start_seq(s: Seq<char>) -> Seq<char>
    decreases s.len(),
{
    if s.len() > 0 && is_config_ws(s[0]) {
        trim_start_seq(s.drop_first())
    } else {
        s
    }
}

/// `s` with its trailing whitespace removed.
pub open spec fn trim_end_seq(s: Seq<char>) -> Seq<char>
    decreases s.len(),
{
    if s.len() > 0 && is_config_ws(s.last()) {
        trim_end_seq(s.drop_last())
    } else {
        s
    }
}

/// `s` with leading and trailing whitespace removed.
pub open spec fn trim_seq(s: Seq<char>) -> Seq<char> {
    trim_end_seq(trim_start_seq(s))
}

pub(crate) fn is_ws_char(c: char) -> (r: bool)
    ensures
        r == is_config_ws(c),
{
    let n: u32 = c as u32;
    (0x09 <= n && n <= 0x0D) || n == 0x20 || n == 0x85 || n == 0xA0 || n == 0x1680 || (0x2000 <= n
        && n <= 0x200A) || n == 0x2028 || n == 0x2029 || n == 0x202F || n == 0x205F || n == 0x3000
}

pub(crate) fn to_lower_char(c: char) -> (r: char)
    ensures
        r == lower_char(c),
{
    let n: u32 = c as u32;
    if 65 <= n && n <= 90 {
        let b: u8 = (n + 32) as u8;
        b as char
    } else {
        c
    }
}

proof fn lemma_trim_start_at(s: Seq<char>, k: int)
    requires
        0 <= k <= s.len(),
        forall|i: int| 0 <= i < k ==> is_config_ws(s[i]),
        k == s.len() || !is_config_ws(s[k]),
    ensures
        trim_start_seq(s) == s.subrange(k, s.len() as int),
    decreases k,
{
    if k == 0 {
        assert(s =~= s.subrange(0, s.len() as int));
    } else {
        let t = s.drop_first();
        assert(forall|i: int| 0 <= i < k - 1 ==> is_config_ws(t[i]));
        lemma_trim_start_at(t, k - 1);
        assert(t.subrange(k - 1, t.len() as int) =~= s.subrange(k, s.len() as int));
    }
}

proof fn lemma_trim_end_at(s: Seq<char>, k: int)
    requires
        0 <= k <= s.len(),
        forall|i: int| k <= i < s.len() ==> is_config_ws(s[i]),
        k == 0 || !is_config_ws(s[k - 1]),
    ensures
        trim_end_seq(s) == s.subrange(0, k),
    decreases s.len() - k,
{
    if k == s.len() {
        assert(s =~= s.subrange(0, k));
    } else {
        let t = s.drop_last();
        assert(is_config_ws(s.last()));
        assert(forall|i: int| k <= i < t.len() ==> is_config_ws(t[i]));
        lemma_trim_end_at(t, k);
        assert(t.subrange(0, k) =~= s.subrange(0, k));
    }
}

/// A sequence without any whitespace character is left unchanged by trimming.
pub proof fn lemma_trim_all_non_ws(s: Seq<char>)
    requires
        forall|i: int| 0 <= i < s.len() ==> !is_config_ws(s[i]),
    ensures
        trim_seq(s) == s,
{
    lemma_trim_start_at(s, 0);
    assert(trim_start_seq(s) =~= s);
    lemma_trim_end_at(s, s.len() as int);
    assert(trim_end_seq(s) =~= s);
}

/// Computes the bounds of the trimmed region of `s`: the characters outside
/// `[lo, hi)` are exactly the leading and trailing whitespace.
pub fn trim_bounds(s: &str) -> (r: (usize, usize))
    ensures
        r.0 <= r.1 <= s@.len(),
        trim_seq(s@) == s@.subrange(r.0 as int, r.1 as int),
{
    let n: usize = s.unicode_len();
    let mut lo: usize = 0;
    while lo < n && is_ws_char(s.get_char(lo))
        invariant
            0 <= lo <= n,
            n == s@.len(),
            forall|i: int| 0 <= i < lo ==> is_config_ws(s@[i]),
        decreases n - lo,
    {
        lo = lo + 1;
    }
    proof {
        lemma_trim_start_at(s@, lo as int);
    }
    let ghost head = s@.subrange(lo as int, n as int);
    let mut hi: usize = n;
    while hi > lo && is_ws_char(s.get_char(hi - 1))
        invariant
            lo <= hi <= n,
            n == s@.len(),
            forall|i: int| hi <= i < n ==> is_config_ws(s@[i]),
        decreases hi,
    {
        hi = hi - 1;
    }
    proof {
        assert(forall|i: int| hi - lo <= i < head.len() ==> is_config_ws(head[i]));
        lemma_trim_end_at(head, hi - lo);
        assert(head.subrange(0, hi - lo) =~= s@.subrange(lo as int, hi as int));
    }
    (lo, hi)
}

/// Whether the region `[lo, hi)` of `s`, lowercased, equals `target`.
pub fn region_eq_lower(s: &str, lo: usize, hi: usize, target: &str) -> (r: bool)
    requires
        lo <= hi <= s@.len(),
    ensures
        r == (lower_seq(s@.subrange(lo as int, hi as int)) == target@),
{
    let ghost region = s@.subrange(lo as int, hi as int);
    let n: usize = target.unicode_len();
    assert(lower_seq(region).len() == region.len());
    if hi - lo != n {
        return false;
    }
    let mut j: usize = 0;
    while j < n
        invariant
            lo <= hi <= s@.len(),
            hi - lo == n,
            n == target@.len(),
            0 <= j <= n,
            region == s@.subrange(lo as int, hi as int),
            forall|i: int| 0 <= i < j ==> lower_seq(region)[i] == target@[i],
        decreases n - j,
    {
        let c = to_lower_char(s.get_char(lo + j));
        let d = target.get_char(j);
        assert(lower_seq(region)[j as int] == lower_char(region[j as int]));
        if c != d {
            assert(lower_seq(region)[j as int] != target@[j as int]);
            return false;
        }
        j = j + 1;
    }
    assert(lower_seq(region) =~= target@);
    true
}

/// Lowercasing does not turn a character into or out of whitespace.
proof fn lemma_lower_char_preserves_ws(c: char)
    ensures
        is_config_ws(lower_char(c)) == is_config_ws(c),
{
}

/// Lowercasing a single character is idempotent.
proof fn lemma_lower_char_idempotent(c: char)
    ensures
        lower_char(lower_char(c)) == lower_char(c),
{
}

/// Lowercasing a sequence is idempotent.
pub proof fn lemma_lower_seq_idempotent(s: Seq<char>)
    ensures
        lower_seq(lower_seq(s)) == lower_seq(s),
{
    assert forall|i: int| 0 <= i < s.len() implies lower_seq(lower_seq(s))[i] == lower_seq(s)[i] by {
        lemma_lower_char_idempotent(s[i]);
    }
    assert(lower_seq(lower_seq(s)) =~= lower_seq(s));
}

proof fn lemma_trim_start_lower(s: Seq<char>)
    ensures
        trim_start_seq(lower_seq(s)) == lower_seq(trim_start_seq(s)),
    decreases s.len(),
{
    if s.len() > 0 {
        lemma_lower_char_preserves_ws(s[0]);
        if is_config_ws(s[0]) {
            assert(lower_seq(s).drop_first() =~= lower_seq(s.drop_first()));
            lemma_trim_start_lower(s.drop_first());
        } else {
            assert(!is_config_ws(lower_seq(s)[0]));
        }
    } else {
        assert(lower_seq(s) =~= s);
    }
}

proof fn lemma_trim_end_lower(s: Seq<char>)
    ensures
        trim_end_seq(lower_seq(s)) == lower_seq(trim_end_seq(s)),
    decreases s.len(),
{
    if s.len() > 0 {
        lemma_lower_char_preserves_ws(s.last());
        assert(lower_seq(s).last() == lower_char(s.last()));
        if is_config_ws(s.last()) {
            assert(lower_seq(s).drop_last() =~= lower_seq(s.drop_last()));
            lemma_trim_end_lower(s.drop_last());
        } else {
            assert(!is_config_ws(lower_seq(s).last()));
        }
    } else {
        assert(lower_seq(s) =~= s);
    }
}

/// Trimming commutes with lowercasing.
pub proof fn lemma_trim_lower_commute(s: Seq<char>)
    ensures
        trim_seq(lower_seq(s)) == lower_seq(trim_seq(s)),
{
    lemma_trim_start_lower(s);
    lemma_trim_end_lower(trim_start_seq(s));
}

/// A sequence without ASCII uppercase letters is unchanged by lowercasing.
pub proof fn lemma_lower_all_non_upper(s: Seq<char>)
    requires
        forall|i: int| 0 <= i < s.len() ==> !is_ascii_upper(s[i]),
    ensures
        lower_seq(s) == s,
{
    assert forall|i: int| 0 <= i < s.len() implies lower_seq(s)[i] == s[i] by {
        assert(!is_ascii_upper(s[i]));
    }
    assert(lower_seq(s) =~= s);
}

proof fn lemma_trim_start_no_leading(s: Seq<char>)
    ensures
        trim_start_seq(s).len() > 0 ==> !is_config_ws(trim_start_seq(s)[0]),
    decreases s.len(),
{
    if s.len() > 0 && is_config_ws(s[0]) {
        lemma_trim_start_no_leading(s.drop_first());
    }
}

proof fn lemma_trim_end_no_trailing(s: Seq<char>)
    ensures
        trim_end_seq(s).len() > 0 ==> !is_config_ws(trim_end_seq(s).last()),
    decreases s.len(),
{
    if s.len() > 0 && is_config_ws(s.last()) {
        lemma_trim_end_no_trailing(s.drop_last());
    }
}

proof fn lemma_trim_end_prefix(s: Seq<char>)
    ensures
        trim_end_seq(s).len() <= s.len(),
        forall|i: int| 0 <= i < trim_end_seq(s).len() ==> trim_end_seq(s)[i] == s[i],
    decreases s.len(),
{
    if s.len() > 0 && is_config_ws(s.last()) {
        let t = s.drop_last();
        lemma_trim_end_prefix(t);
        assert forall|i: int| 0 <= i < trim_end_seq(s).len() implies trim_end_seq(s)[i] == s[i] by {
            assert(trim_end_seq(s)[i] == t[i]);
        }
    }
}

/// Trimming is idempotent.
pub proof fn lemma_trim_idempotent(s: Seq<char>)
    ensures
        trim_seq(trim_seq(s)) == trim_seq(s),
{
    let a = trim_start_seq(s);
    let t = trim_end_seq(a);
    if t.len() > 0 {
        lemma_trim_start_no_leading(s);
        lemma_trim_end_prefix(a);
        assert(t[0] == a[0]);
        assert(!is_config_ws(t[0]));
        assert(trim_start_seq(t) == t);
        lemma_trim_end_no_trailing(a);
        assert(trim_end_seq(t) == t);
    } else {
        assert(trim_start_seq(t) == t);
        assert(trim_end_seq(t) == t);
    }
}

} // verus!
