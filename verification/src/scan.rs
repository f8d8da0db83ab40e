//! Text scanning over the small files the harness reads: the controllers
//! listings of the control-group filesystem, the caller's own control-group
//! membership record, and the peak-memory counter.

use vstd::prelude::*;

verus! {

/// Pattern `p` occurs in `s` starting at index `i`.
pub open spec fn matches_at(s: Seq<char>, p: Seq<char>, i: int) -> bool {
    0 <= i && i + p.len() <= s.len() && s.subrange(i, i + p.len()) == p
}

/// Pattern `p` occurs somewhere in `s`.
pub open spec fn has_sub(s: Seq<char>, p: Seq<char>) -> bool {
    exists|i: int| matches_at(s, p, i)
}

/// `i` is the first index at which `p` occurs in `s`.
pub open spec fn is_first_match(s: Seq<char>, p: Seq<char>, i: int) -> bool {
    matches_at(s, p, i) && forall|j: int| 0 <= j < i ==> !matches_at(s, p, j)
}

/// A first match is unique.
pub proof fn lemma_first_match_unique(s: Seq<char>, p: Seq<char>, i: int, j: int)
    requires
        is_first_match(s, p, i),
        is_first_match(s, p, j),
    ensures
        i == j,
{
    if i < j {
        assert(!matches_at(s, p, i));
    }
    if j < i {
        assert(!matches_at(s, p, j));
    }
}

/// The first index at which `p` occurs in `s`; meaningful only when
/// `has_sub(s, p)` holds.
pub open spec fn first_match(s: Seq<char>, p: Seq<char>) -> int {
    choose|i: int| is_first_match(s, p, i)
}

/// Wherever `p` occurs at all, it has a first occurrence.
pub proof fn lemma_first_match_exists(s: Seq<char>, p: Seq<char>)
    requires
        has_sub(s, p),
    ensures
        is_first_match(s, p, first_match(s, p)),
        matches_at(s, p, first_match(s, p)),
    decreases s.len(),
{
    let w = choose|i: int| matches_at(s, p, i);
    lemma_earliest_match_below(s, p, w);
    let e = choose|i: int| is_first_match(s, p, i);
    assert(is_first_match(s, p, first_match(s, p)));
}

/// Below any witness index `w` of a match there is a first match.
proof fn lemma_earliest_match_below(s: Seq<char>, p: Seq<char>, w: int)
    requires
        matches_at(s, p, w),
    ensures
        exists|i: int| is_first_match(s, p, i),
    decreases w,
{
    if exists|j: int| 0 <= j < w && matches_at(s, p, j) {
        let j = choose|j: int| 0 <= j < w && matches_at(s, p, j);
        lemma_earliest_match_below(s, p, j);
    } else {
        assert(is_first_match(s, p, w));
    }
}

/// Compares `p` against `s` at offset `i`, character by character.
fn match_at(s: &str, p: &str, i: usize, sn: usize, pn: usize) -> (r: bool)
    requires
        sn == s@.len(),
        pn == p@.len(),
        i + pn <= sn,
    ensures
        r == matches_at(s@, p@, i as int),
{
    let mut k: usize = 0;
    while k < pn
        invariant
            sn == s@.len(),
            pn == p@.len(),
            i + pn <= sn,
            0 <= k <= pn,
            forall|m: int| 0 <= m < k ==> s@[i + m] == p@[m],
        decreases pn - k,
    {
        if s.get_char(i + k) != p.get_char(k) {
            proof {
                if matches_at(s@, p@, i as int) {
                    assert(s@.subrange(i as int, i + p@.len())[k as int] == p@[k as int]);
                }
            }
            return false;
        }
        k = k + 1;
    }
    proof {
        assert(s@.subrange(i as int, i + p@.len()) =~= p@);
    }
    true
}

/// Finds the first occurrence of `p` in `s`, if there is one.
pub fn find_sub(s: &str, p: &str) -> (r: Option<usize>)
    ensures
        match r {
            Some(i) => is_first_match(s@, p@, i as int),
            None => !has_sub(s@, p@),
        },
{
    let sn = s.unicode_len();
    let pn = p.unicode_len();
    if pn == 0 {
        proof {
            assert(s@.subrange(0, 0) =~= p@);
            assert(is_first_match(s@, p@, 0));
        }
        return Some(0);
    }
    if pn > sn {
        proof {
            assert forall|i: int| !matches_at(s@, p@, i) by {}
        }
        return None;
    }
    let mut i: usize = 0;
    while i <= sn - pn
        invariant
            sn == s@.len(),
            pn == p@.len(),
            1 <= pn <= sn,
            0 <= i <= sn - pn + 1,
            forall|j: int| 0 <= j < i ==> !matches_at(s@, p@, j),
        decreases sn - pn - i + 1,
    {
        if match_at(s, p, i, sn, pn) {
            return Some(i);
        }
        i = i + 1;
    }
    proof {
        assert forall|j: int| !matches_at(s@, p@, j) by {
            if j >= i {
                assert(j + p@.len() > s@.len());
            }
        }
    }
    None
}

/// A controllers listing names the memory controller: it holds "memory"
/// followed by a space or by a NUL separator.
pub open spec fn lists_memory(s: Seq<char>) -> bool {
    has_sub(s, "memory "@) || has_sub(s, "memory\u{0}"@)
}

/// Decides whether a controllers or subtree-control listing names the memory
/// controller.
pub fn memory_controller_listed(s: &str) -> (r: bool)
    ensures
        r == lists_memory(s@),
{
    let space = find_sub(s, "memory ");
    if space.is_some() {
        proof {
            let i = space.unwrap() as int;
            assert(matches_at(s@, "memory "@, i));
        }
        return true;
    }
    let nul = find_sub(s, "memory\u{0}");
    if nul.is_some() {
        proof {
            let i = nul.unwrap() as int;
            assert(matches_at(s@, "memory\u{0}"@, i));
        }
        return true;
    }
    false
}

/// The session scope named by a control-group membership record: what stands
/// between the record's first '/' (exclusive) and the end of the first
/// ".service" occurrence (inclusive). A record without both marks, or whose
/// first ".service" ends before its first '/', names no scope.
pub open spec fn session_scope_spec(r: Seq<char>) -> Option<Seq<char>> {
    if has_sub(r, "/"@) && has_sub(r, ".service"@) {
        let s_pos = first_match(r, "/"@) + 1;
        let e_pos = first_match(r, ".service"@) + ".service"@.len();
        if s_pos <= e_pos {
            Some(r.subrange(s_pos, e_pos))
        } else {
            None
        }
    } else {
        None
    }
}

/// Extracts the session scope from a membership record, if the record names
/// one.
pub fn session_scope_of(record: &str) -> (r: Option<String>)
    ensures
        match r {
            Some(sub) => session_scope_spec(record@) matches Some(v) && sub@ == v,
            None => session_scope_spec(record@) is None,
        },
{
    let rn = record.unicode_len();
    let slash = find_sub(record, "/");
    if slash.is_none() {
        return None;
    }
    let svc = find_sub(record, ".service");
    if svc.is_none() {
        return None;
    }
    let s = slash.unwrap();
    let e = svc.unwrap();
    proof {
        reveal_strlit("/");
        reveal_strlit(".service");
        assert(matches_at(record@, "/"@, s as int));
        assert(matches_at(record@, ".service"@, e as int));
        lemma_first_match_exists(record@, "/"@);
        lemma_first_match_exists(record@, ".service"@);
        lemma_first_match_unique(record@, "/"@, s as int, first_match(record@, "/"@));
        lemma_first_match_unique(record@, ".service"@, e as int, first_match(record@, ".service"@));
    }
    let svc_len = ".service".unicode_len();
    let end = e + svc_len;
    if s + 1 <= end {
        let sub = record.substring_char(s + 1, end);
        Some(String::from_str(sub))
    } else {
        None
    }
}

/// The whitespace the peak counter may carry around its digits.
pub open spec fn is_space(c: char) -> bool {
    c == ' ' || c == '\n' || c == '\t' || c == '\r'
}

/// A decimal digit.
pub open spec fn is_digit(c: char) -> bool {
    48 <= c as u32 <= 57
}

/// The numeric value of a decimal digit.
pub open spec fn digit_val(c: char) -> int {
    c as u32 - 48
}

/// Every character of `s` is a decimal digit.
pub open spec fn all_digits(s: Seq<char>) -> bool {
    forall|i: int| 0 <= i < s.len() ==> is_digit(s[i])
}

/// The value of a sequence of decimal digits, most significant first.
pub open spec fn dec_val(s: Seq<char>) -> int
    decreases s.len(),
{
    if s.len() == 0 {
        0
    } else {
        dec_val(s.drop_last()) * 10 + digit_val(s.last())
    }
}

/// Index of the first character of `s` that is not whitespace (the length if
/// all of `s` is whitespace).
pub open spec fn trim_start_idx(s: Seq<char>) -> int
    decreases s.len(),
{
    if s.len() == 0 {
        0
    } else if !is_space(s[0]) {
        0
    } else {
        1 + trim_start_idx(s.subrange(1, s.len() as int))
    }
}

/// Index one past the last character of `s` that is not whitespace (zero if
/// all of `s` is whitespace).
pub open spec fn trim_end_idx(s: Seq<char>) -> int
    decreases s.len(),
{
    if s.len() == 0 {
        0
    } else if !is_space(s.last()) {
        s.len() as int
    } else {
        trim_end_idx(s.drop_last())
    }
}

/// `s` without leading and trailing whitespace.
pub open spec fn trimmed(s: Seq<char>) -> Seq<char> {
    if trim_start_idx(s) <= trim_end_idx(s) {
        s.subrange(trim_start_idx(s), trim_end_idx(s))
    } else {
        Seq::empty()
    }
}

/// What the peak counter's text denotes: the value of its trimmed digits, or
/// nothing when the text is empty, holds a non-digit, or overflows a `u64`.
pub open spec fn parse_peak_spec(s: Seq<char>) -> Option<u64> {
    let t = trimmed(s);
    if t.len() > 0 && all_digits(t) && dec_val(t) <= u64::MAX {
        Some(dec_val(t) as u64)
    } else {
        None
    }
}

proof fn lemma_trim_start_at(s: Seq<char>, i: int)
    requires
        0 <= i <= s.len(),
        forall|j: int| 0 <= j < i ==> is_space(s[j]),
        i < s.len() ==> !is_space(s[i]),
    ensures
        trim_start_idx(s) == i,
    decreases s.len(),
{
    if s.len() == 0 {
    } else if i == 0 {
    } else {
        let tail = s.subrange(1, s.len() as int);
        assert forall|j: int| 0 <= j < i - 1 implies is_space(tail[j]) by {
            assert(tail[j] == s[j + 1]);
        }
        assert(i - 1 < tail.len() ==> !is_space(tail[i - 1]));
        lemma_trim_start_at(tail, i - 1);
    }
}

proof fn lemma_trim_end_at(s: Seq<char>, b: int)
    requires
        0 <= b <= s.len(),
        forall|j: int| b <= j < s.len() ==> is_space(s[j]),
        b > 0 ==> !is_space(s[b - 1]),
    ensures
        trim_end_idx(s) == b,
    decreases s.len(),
{
    if s.len() == 0 {
    } else if b == s.len() {
    } else {
        lemma_trim_end_at(s.drop_last(), b);
    }
}

proof fn lemma_trim_end_bounds(s: Seq<char>)
    ensures
        0 <= trim_end_idx(s) <= s.len(),
    decreases s.len(),
{
    if s.len() > 0 && is_space(s.last()) {
        lemma_trim_end_bounds(s.drop_last());
    }
}

proof fn lemma_dec_val_nonneg(s: Seq<char>)
    requires
        all_digits(s),
    ensures
        dec_val(s) >= 0,
    decreases s.len(),
{
    if s.len() > 0 {
        assert(all_digits(s.drop_last()));
        lemma_dec_val_nonneg(s.drop_last());
    }
}

/// Appending one digit multiplies the value by ten and adds the digit.
proof fn lemma_dec_val_step(s: Seq<char>, i: int)
    requires
        0 <= i < s.len(),
    ensures
        dec_val(s.subrange(0, i + 1)) == dec_val(s.subrange(0, i)) * 10 + digit_val(s[i]),
{
    let p = s.subrange(0, i + 1);
    assert(p.drop_last() =~= s.subrange(0, i));
    assert(p.last() == s[i]);
}

/// A digit sequence is worth at least any of its prefixes.
proof fn lemma_dec_val_prefix(s: Seq<char>, i: int)
    requires
        all_digits(s),
        0 <= i <= s.len(),
    ensures
        dec_val(s) >= dec_val(s.subrange(0, i)),
    decreases s.len() - i,
{
    if i == s.len() {
        assert(s.subrange(0, i) =~= s);
    } else {
        lemma_dec_val_step(s, i);
        assert(all_digits(s.subrange(0, i)));
        lemma_dec_val_nonneg(s.subrange(0, i));
        lemma_dec_val_prefix(s, i + 1);
    }
}

/// Whitespace test on one character.
fn is_space_c(c: char) -> (r: bool)
    ensures
        r == is_space(c),
{
    c == ' ' || c == '\n' || c == '\t' || c == '\r'
}

/// Digit test on one character.
fn is_digit_c(c: char) -> (r: bool)
    ensures
        r == is_digit(c),
{
    let u = c as u32;
    48 <= u && u <= 57
}

/// Parses the decimal byte count that the peak-memory counter file holds,
/// tolerating surrounding whitespace; yields nothing on empty, malformed or
/// overflowing text.
pub fn parse_peak_bytes(s: &str) -> (r: Option<u64>)
    ensures
        r == parse_peak_spec(s@),
{
    let n = s.unicode_len();
    let mut a: usize = 0;
    while a < n && is_space_c(s.get_char(a))
        invariant
            n == s@.len(),
            0 <= a <= n,
            forall|j: int| 0 <= j < a ==> is_space(s@[j]),
        decreases n - a,
    {
        a = a + 1;
    }
    proof {
        lemma_trim_start_at(s@, a as int);
    }
    if a == n {
        proof {
            lemma_trim_end_bounds(s@);
        }
        return None;
    }
    let mut b: usize = n;
    while b > a && is_space_c(s.get_char(b - 1))
        invariant
            n == s@.len(),
            a <= b <= n,
            a < n,
            !is_space(s@[a as int]),
            forall|j: int| b <= j < n ==> is_space(s@[j]),
        decreases b,
    {
        b = b - 1;
    }
    proof {
        lemma_trim_end_at(s@, b as int);
        assert(trimmed(s@) =~= s@.subrange(a as int, b as int));
    }
    let ghost t = trimmed(s@);
    let mut acc: u64 = 0;
    let mut i: usize = a;
    while i < b
        invariant
            n == s@.len(),
            a <= i <= b <= n,
            a < b,
            t == trimmed(s@),
            t =~= s@.subrange(a as int, b as int),
            forall|j: int| a <= j < i ==> is_digit(s@[j]),
            acc == dec_val(s@.subrange(a as int, i as int)),
        decreases b - i,
    {
        let c = s.get_char(i);
        if !is_digit_c(c) {
            proof {
                assert(t[i - a] == s@[i as int]);
                assert(!all_digits(t));
            }
            return None;
        }
        let d: u64 = ((c as u32) - 48) as u64;
        proof {
            assert(s@.subrange(a as int, i + 1).drop_last() =~= s@.subrange(a as int, i as int));
            assert(dec_val(s@.subrange(a as int, i + 1)) == acc * 10 + d);
        }
        let limit = (u64::MAX - d) / 10;
        if acc > limit {
            proof {
                assert(acc * 10 + d > u64::MAX) by (nonlinear_arith)
                    requires
                        acc > (u64::MAX - d) / 10,
                        d <= 9,
                        acc <= u64::MAX,
                {}
                assert(s@.subrange(a as int, i + 1) =~= t.subrange(0, i + 1 - a));
                if all_digits(t) {
                    lemma_dec_val_prefix(t, i + 1 - a);
                    assert(dec_val(t) > u64::MAX);
                }
            }
            return None;
        }
        proof {
            assert(acc * 10 + d <= u64::MAX) by (nonlinear_arith)
                requires
                    acc <= (u64::MAX - d) / 10,
                    d <= 9,
                {}
        }
        acc = acc * 10 + d;
        i = i + 1;
    }
    proof {
        assert(t =~= s@.subrange(a as int, b as int));
        assert forall|k: int| 0 <= k < t.len() implies is_digit(t[k]) by {
            assert(t[k] == s@[a + k]);
        }
        assert(all_digits(t));
        assert(dec_val(t) == acc);
    }
    Some(acc)
}

} // verus!
