//! Verified text utilities: decimal formatting and parsing, substring search,
//! line splitting and trimming over the character view of strings.

use vstd::prelude::*;

verus! {

// ---------------------------------------------------------------------------
// Character classes
// ---------------------------------------------------------------------------

/// Whitespace as this library understands it: the blank, tab and the two
/// line-ending characters.
pub open spec fn spec_is_space(c: char) -> bool {
    c == ' ' || c == '\t' || c == '\r' || c == '\n'
}

pub fn is_space(c: char) -> (b: bool)
    ensures
        b == spec_is_space(c),
{
    c == ' ' || c == '\t' || c == '\r' || c == '\n'
}

pub open spec fn spec_is_digit(c: char) -> bool {
    48 <= (c as u32) <= 57
}

pub open spec fn spec_digit_val(c: char) -> nat {
    ((c as u32) - 48) as nat
}

/// The decimal digit character for a value below ten.
pub open spec fn spec_digit_char(d: nat) -> char {
    if d == 0 {
        '0'
    } else if d == 1 {
        '1'
    } else if d == 2 {
        '2'
    } else if d == 3 {
        '3'
    } else if d == 4 {
        '4'
    } else if d == 5 {
        '5'
    } else if d == 6 {
        '6'
    } else if d == 7 {
        '7'
    } else if d == 8 {
        '8'
    } else {
        '9'
    }
}

// ---------------------------------------------------------------------------
// Unsigned decimal rendering
// ---------------------------------------------------------------------------

/// The usual decimal notation of `n`, most significant digit first and
/// without leading zeros (a single zero stands for itself).
pub open spec fn spec_u32_str(n: nat) -> Seq<char>
    decreases n,
{
    if n < 10 {
        seq![spec_digit_char(n)]
    } else {
        spec_u32_str(n / 10) + seq![spec_digit_char(n % 10)]
    }
}

fn digit_str(d: u32) -> (r: &'static str)
    requires
        d < 10,
    ensures
        r@ == seq![spec_digit_char(d as nat)],
{
    let s: &'static str = match d {
        0 => "0",
        1 => "1",
        2 => "2",
        3 => "3",
        4 => "4",
        5 => "5",
        6 => "6",
        7 => "7",
        8 => "8",
        _ => "9",
    };
    proof {
        reveal_strlit("0");
        reveal_strlit("1");
        reveal_strlit("2");
        reveal_strlit("3");
        reveal_strlit("4");
        reveal_strlit("5");
        reveal_strlit("6");
        reveal_strlit("7");
        reveal_strlit("8");
        reveal_strlit("9");
        assert(s@ =~= seq![spec_digit_char(d as nat)]);
    }
    s
}

/// Renders `n` in decimal.
pub fn u32_string(n: u32) -> (r: String)
    ensures
        r@ == spec_u32_str(n as nat),
    decreases n,
{
    if n < 10 {
        let mut s = String::new();
        s.append(digit_str(n));
        proof {
            assert(s@ =~= spec_u32_str(n as nat));
        }
        s
    } else {
        let mut s = u32_string(n / 10);
        s.append(digit_str(n % 10));
        s
    }
}

/// Renders `n` in decimal.
pub fn usize_string(n: usize) -> (r: String)
    ensures
        r@ == spec_u32_str(n as nat),
    decreases n,
{
    if n < 10 {
        let mut s = String::new();
        s.append(digit_str((n as u32) % 10));
        proof {
            assert(s@ =~= spec_u32_str(n as nat));
        }
        s
    } else {
        let mut s = usize_string(n / 10);
        s.append(digit_str((n % 10) as u32));
        s
    }
}

/// The decimal notation of a quantity held in tenths: the whole part,
/// a point, then the single fractional digit.
pub open spec fn spec_tenths_str(tenths: nat) -> Seq<char> {
    spec_u32_str(tenths / 10) + "."@ + seq![spec_digit_char(tenths % 10)]
}

/// Renders a quantity held in tenths, e.g. 955 tenths as `95.5`.
pub fn tenths_string(tenths: u32) -> (r: String)
    ensures
        r@ == spec_tenths_str(tenths as nat),
{
    let mut s = u32_string(tenths / 10);
    s.append(".");
    s.append(digit_str(tenths % 10));
    s
}

// ---------------------------------------------------------------------------
// Unsigned decimal parsing
// ---------------------------------------------------------------------------

/// The value of a digit string read most significant digit first.
pub open spec fn spec_dec_value(s: Seq<char>) -> nat
    decreases s.len(),
{
    if s.len() == 0 {
        0
    } else {
        spec_dec_value(s.drop_last()) * 10 + spec_digit_val(s.last())
    }
}

pub open spec fn spec_all_digits(s: Seq<char>) -> bool {
    forall|i: int| 0 <= i < s.len() ==> spec_is_digit(#[trigger] s[i])
}

/// What `parse_u32` accepts: a non-empty, all-digit string whose value fits.
pub open spec fn spec_parse_u32(s: Seq<char>) -> Option<u32> {
    if s.len() > 0 && spec_all_digits(s) && spec_dec_value(s) <= u32::MAX {
        Some(spec_dec_value(s) as u32)
    } else {
        None
    }
}

/// Extending a digit string never lowers its value.
proof fn lemma_dec_value_prefix_le(s: Seq<char>, t: Seq<char>)
    requires
        s.len() <= t.len(),
        forall|i: int| 0 <= i < s.len() ==> s[i] == t[i],
    ensures
        spec_dec_value(s) <= spec_dec_value(t),
    decreases t.len(),
{
    if s.len() == t.len() {
        assert(s =~= t);
    } else {
        lemma_dec_value_prefix_le(s, t.drop_last());
    }
}

/// Parses a decimal `u32`; `None` on an empty string, a non-digit, or overflow.
pub fn parse_u32(s: &str) -> (r: Option<u32>)
    ensures
        r == spec_parse_u32(s@),
{
    let n = s.unicode_len();
    if n == 0 {
        return None;
    }
    let mut acc: u64 = 0;
    let mut i: usize = 0;
    while i < n
        invariant
            0 < n == s@.len(),
            0 <= i <= n,
            spec_all_digits(s@.take(i as int)),
            acc == spec_dec_value(s@.take(i as int)),
            acc <= u32::MAX,
        decreases n - i,
    {
        let c = s.get_char(i);
        let v = c as u32;
        if v < 48 || v > 57 {
            proof {
                assert(!spec_is_digit(s@[i as int]));
            }
            return None;
        }
        acc = acc * 10 + (v - 48) as u64;
        proof {
            assert(s@.take(i + 1 as int).drop_last() =~= s@.take(i as int));
            assert(s@.take(i + 1 as int).last() == s@[i as int]);
        }
        i = i + 1;
        if acc > u32::MAX as u64 {
            proof {
                lemma_dec_value_prefix_le(s@.take(i as int), s@);
                assert(s@.take(i as int).len() <= s@.len());
            }
            return None;
        }
    }
    proof {
        assert(s@.take(n as int) =~= s@);
    }
    Some(acc as u32)
}

// ---------------------------------------------------------------------------
// String equality
// ---------------------------------------------------------------------------

/// Character-for-character equality of two string slices.
pub fn str_eq(a: &str, b: &str) -> (r: bool)
    ensures
        r == (a@ == b@),
{
    let la = a.unicode_len();
    let lb = b.unicode_len();
    if la != lb {
        return false;
    }
    let mut i: usize = 0;
    while i < la
        invariant
            la == a@.len(),
            lb == b@.len(),
            la == lb,
            0 <= i <= la,
            forall|j: int| 0 <= j < i ==> a@[j] == b@[j],
        decreases la - i,
    {
        if a.get_char(i) != b.get_char(i) {
            return false;
        }
        i = i + 1;
    }
    proof {
        assert(a@ =~= b@);
    }
    true
}

// ---------------------------------------------------------------------------
// Substring search
// ---------------------------------------------------------------------------

/// `needle` occurs in `hay` starting at position `i`.
pub open spec fn spec_match_at(hay: Seq<char>, needle: Seq<char>, i: int) -> bool {
    0 <= i && i + needle.len() <= hay.len() && hay.subrange(i, i + needle.len()) == needle
}

pub open spec fn spec_contains_sub(hay: Seq<char>, needle: Seq<char>) -> bool {
    exists|i: int| spec_match_at(hay, needle, i)
}

/// Finds the first occurrence of `needle` in `hay`.
pub fn find_sub(hay: &str, needle: &str) -> (r: Option<usize>)
    ensures
        match r {
            Some(i) => spec_match_at(hay@, needle@, i as int) && (forall|j: int|
                0 <= j < i ==> !spec_match_at(hay@, needle@, j)),
            None => !spec_contains_sub(hay@, needle@),
        },
{
    let hl = hay.unicode_len();
    let nl = needle.unicode_len();
    if nl == 0 {
        proof {
            assert(hay@.subrange(0, 0) =~= needle@);
        }
        return Some(0);
    }
    if nl > hl {
        proof {
            assert(forall|j: int| !spec_match_at(hay@, needle@, j));
        }
        return None;
    }
    let mut i: usize = 0;
    while i <= hl - nl
        invariant
            hl == hay@.len(),
            nl == needle@.len(),
            1 <= nl <= hl,
            0 <= i <= hl - nl + 1,
            forall|j: int| 0 <= j < i ==> !spec_match_at(hay@, needle@, j),
        decreases hl - i,
    {
        let mut k: usize = 0;
        while k < nl
            invariant
                hl == hay@.len(),
                nl == needle@.len(),
                i + nl <= hl,
                0 <= k <= nl,
                forall|m: int| 0 <= m < k ==> hay@[i + m] == needle@[m],
            ensures
                0 <= k <= nl,
                forall|m: int| 0 <= m < k ==> hay@[i + m] == needle@[m],
                k < nl ==> hay@[i + k] != needle@[k as int],
            decreases nl - k,
        {
            if hay.get_char(i + k) != needle.get_char(k) {
                break ;
            }
            k = k + 1;
        }
        if k == nl {
            proof {
                assert(hay@.subrange(i as int, i + nl) =~= needle@);
            }
            return Some(i);
        }
        proof {
            assert(hay@.subrange(i as int, i + nl)[k as int] == hay@[i + k]);
            assert(!spec_match_at(hay@, needle@, i as int));
        }
        i = i + 1;
    }
    proof {
        assert(forall|j: int| j > hl - nl ==> !spec_match_at(hay@, needle@, j));
    }
    None
}

/// True when `needle` occurs somewhere in `hay`.
pub fn contains_sub(hay: &str, needle: &str) -> (r: bool)
    ensures
        r == spec_contains_sub(hay@, needle@),
{
    match find_sub(hay, needle) {
        Some(_) => true,
        None => false,
    }
}

// ---------------------------------------------------------------------------
// Line splitting
// ---------------------------------------------------------------------------

/// The segments of `s` between `'\n'` separators; always at least one
/// segment, and an empty tail segment when `s` ends with the separator.
pub open spec fn spec_split_lines(s: Seq<char>) -> Seq<Seq<char>>
    decreases s.len(),
{
    if s.len() == 0 {
        seq![Seq::<char>::empty()]
    } else if s[0] == '\n' {
        seq![Seq::<char>::empty()] + spec_split_lines(s.skip(1))
    } else {
        let rest = spec_split_lines(s.skip(1));
        seq![seq![s[0]] + rest[0]] + rest.skip(1)
    }
}

pub proof fn lemma_split_lines_nonempty(s: Seq<char>)
    ensures
        spec_split_lines(s).len() >= 1,
    decreases s.len(),
{
    if s.len() > 0 {
        lemma_split_lines_nonempty(s.skip(1));
    }
}

/// The split with its first segment extended on the left by `p`.
pub open spec fn spec_prepend_first(p: Seq<char>, lines: Seq<Seq<char>>) -> Seq<Seq<char>> {
    seq![p + lines[0]] + lines.skip(1)
}

/// Splits `s` into its lines at each `'\n'`.
pub fn split_lines(s: &str) -> (r: Vec<String>)
    ensures
        r.deep_view() == spec_split_lines(s@),
{
    let n = s.unicode_len();
    let mut done: Vec<String> = Vec::new();
    let mut start: usize = 0;
    let mut pos: usize = 0;
    proof {
        lemma_split_lines_nonempty(s@.skip(0));
        assert(s@.skip(0) =~= s@);
        assert(done.deep_view() =~= Seq::<Seq<char>>::empty());
        assert(s@.subrange(0, 0) =~= Seq::<char>::empty());
        assert(Seq::<char>::empty() + spec_split_lines(s@)[0] =~= spec_split_lines(s@)[0]);
        assert(spec_split_lines(s@) =~= done.deep_view() + spec_prepend_first(
            s@.subrange(start as int, pos as int),
            spec_split_lines(s@.skip(pos as int)),
        ));
    }
    while pos < n
        invariant
            n == s@.len(),
            0 <= start <= pos <= n,
            spec_split_lines(s@.skip(pos as int)).len() >= 1,
            spec_split_lines(s@) == done.deep_view() + spec_prepend_first(
                s@.subrange(start as int, pos as int),
                spec_split_lines(s@.skip(pos as int)),
            ),
        decreases n - pos,
    {
        let c = s.get_char(pos);
        proof {
            assert(s@.skip(pos as int)[0] == s@[pos as int]);
            assert(s@.skip(pos as int).skip(1) =~= s@.skip(pos + 1));
            lemma_split_lines_nonempty(s@.skip(pos + 1));
        }
        let ghost old_done = done.deep_view();
        let ghost old_cur = s@.subrange(start as int, pos as int);
        let ghost rest = spec_split_lines(s@.skip(pos + 1));
        if c == '\n' {
            let line = s.substring_char(start, pos);
            done.push(line.to_owned());
            start = pos + 1;
            proof {
                assert(done.deep_view() =~= old_done.push(old_cur));
                assert(spec_split_lines(s@.skip(pos as int)) =~= seq![Seq::<char>::empty()]
                    + rest);
                assert(old_cur + Seq::<char>::empty() =~= old_cur);
                assert(spec_prepend_first(old_cur, seq![Seq::<char>::empty()] + rest) =~= seq![
                    old_cur,
                ] + rest);
                assert(Seq::<char>::empty() + rest[0] =~= rest[0]);
                assert(spec_prepend_first(Seq::<char>::empty(), rest) =~= rest);
                assert(old_done + (seq![old_cur] + rest) =~= old_done.push(old_cur) + rest);
                assert(s@.subrange(pos + 1, pos + 1) =~= Seq::<char>::empty());
                assert(spec_split_lines(s@) == done.deep_view() + spec_prepend_first(
                    s@.subrange(pos + 1, pos + 1),
                    spec_split_lines(s@.skip(pos + 1)),
                ));
            }
        } else {
            proof {
                let cur1 = s@.subrange(start as int, pos + 1);
                assert(cur1 =~= old_cur + seq![c]);
                assert(spec_split_lines(s@.skip(pos as int)) =~= seq![seq![c] + rest[0]]
                    + rest.skip(1));
                assert(old_cur + (seq![c] + rest[0]) =~= (old_cur + seq![c]) + rest[0]);
                assert(spec_prepend_first(old_cur, seq![seq![c] + rest[0]] + rest.skip(1))
                    =~= spec_prepend_first(cur1, rest));
                assert(spec_split_lines(s@) == done.deep_view() + spec_prepend_first(
                    s@.subrange(start as int, pos + 1),
                    spec_split_lines(s@.skip(pos + 1)),
                ));
            }
        }
        pos = pos + 1;
    }
    let last = s.substring_char(start, pos);
    done.push(last.to_owned());
    proof {
        assert(s@.skip(pos as int) =~= Seq::<char>::empty());
        let tail = spec_split_lines(s@.skip(pos as int));
        assert(tail =~= seq![Seq::<char>::empty()]);
        let cur = s@.subrange(start as int, pos as int);
        assert(cur + Seq::<char>::empty() =~= cur);
        assert(spec_prepend_first(cur, tail) =~= seq![cur]);
        assert(done.deep_view() =~= spec_split_lines(s@));
    }
    done
}

// ---------------------------------------------------------------------------
// Trimming
// ---------------------------------------------------------------------------

pub open spec fn spec_trim_start(s: Seq<char>) -> Seq<char>
    decreases s.len(),
{
    if s.len() > 0 && spec_is_space(s[0]) {
        spec_trim_start(s.skip(1))
    } else {
        s
    }
}

pub open spec fn spec_trim_end(s: Seq<char>) -> Seq<char>
    decreases s.len(),
{
    if s.len() > 0 && spec_is_space(s.last()) {
        spec_trim_end(s.drop_last())
    } else {
        s
    }
}

/// `s` without leading and trailing whitespace.
pub open spec fn spec_trim(s: Seq<char>) -> Seq<char> {
    spec_trim_end(spec_trim_start(s))
}

proof fn lemma_trim_start_skip(s: Seq<char>, a: int)
    requires
        0 <= a <= s.len(),
        forall|j: int| 0 <= j < a ==> spec_is_space(s[j]),
        a == s.len() || !spec_is_space(s[a]),
    ensures
        spec_trim_start(s) == s.skip(a),
    decreases a,
{
    if a == 0 {
        assert(s.skip(0) =~= s);
    } else {
        lemma_trim_start_skip(s.skip(1), a - 1);
        assert(s.skip(1).skip(a - 1) =~= s.skip(a));
    }
}

proof fn lemma_trim_end_take(s: Seq<char>, b: int)
    requires
        0 <= b <= s.len(),
        forall|j: int| b <= j < s.len() ==> spec_is_space(s[j]),
        b == 0 || !spec_is_space(s[b - 1]),
    ensures
        spec_trim_end(s) == s.take(b),
    decreases s.len() - b,
{
    if b == s.len() {
        assert(s.take(b) =~= s);
    } else {
        lemma_trim_end_take(s.drop_last(), b);
        assert(s.drop_last().take(b) =~= s.take(b));
    }
}

/// Returns `s` without leading and trailing whitespace.
pub fn trim(s: &str) -> (r: &str)
    ensures
        r@ == spec_trim(s@),
{
    let n = s.unicode_len();
    let mut a: usize = 0;
    while a < n && is_space(s.get_char(a))
        invariant
            n == s@.len(),
            0 <= a <= n,
            forall|j: int| 0 <= j < a ==> spec_is_space(s@[j]),
        decreases n - a,
    {
        a = a + 1;
    }
    let mut b: usize = n;
    while b > a && is_space(s.get_char(b - 1))
        invariant
            n == s@.len(),
            0 <= a <= b <= n,
            forall|j: int| 0 <= j < a ==> spec_is_space(s@[j]),
            a == n || !spec_is_space(s@[a as int]),
            forall|j: int| b <= j < n ==> spec_is_space(s@[j]),
        decreases b,
    {
        b = b - 1;
    }
    proof {
        lemma_trim_start_skip(s@, a as int);
        if b == a {
            lemma_trim_end_take(s@.skip(a as int), 0);
        } else {
            assert(s@.skip(a as int)[b - a - 1] == s@[b - 1]);
            lemma_trim_end_take(s@.skip(a as int), b - a);
        }
        assert(s@.skip(a as int).take(b - a) =~= s@.subrange(a as int, b as int));
    }
    s.substring_char(a, b)
}

/// True when the first character of `s` is `c`.
pub fn starts_with_char(s: &str, c: char) -> (r: bool)
    ensures
        r == (s@.len() > 0 && s@[0] == c),
{
    let n = s.unicode_len();
    if n == 0 {
        false
    } else {
        s.get_char(0) == c
    }
}

} // verus!
