//! String predicates and helpers shared by the classifier and the formatter.
//!
//! Every helper is an executable function proved against a spec function over
//! `Seq<char>`; the spec functions are the vocabulary of the library's
//! contracts.

use vstd::prelude::*;

verus! {

/// `p` is a prefix of `s`.
pub open spec fn starts_with(s: Seq<char>, p: Seq<char>) -> bool {
    p.len() <= s.len() && s.take(p.len() as int) == p
}

pub fn str_starts_with(s: &str, p: &str) -> (b: bool)
    ensures
        b == starts_with(s@, p@),
{
    let sn = s.unicode_len();
    let pn = p.unicode_len();
    if pn > sn {
        assert(!starts_with(s@, p@));
        return false;
    }
    for i in 0..pn
        invariant
            sn == s@.len(),
            pn == p@.len(),
            pn <= sn,
            forall|j: int| 0 <= j < i ==> s@[j] == p@[j],
    {
        if s.get_char(i) != p.get_char(i) {
            assert(s@.take(pn as int)[i as int] != p@[i as int]);
            return false;
        }
    }
    assert(s@.take(pn as int) =~= p@);
    true
}

/// `p` occurs in `s` starting at position `at`.
pub open spec fn matches_at(s: Seq<char>, at: int, p: Seq<char>) -> bool {
    0 <= at && at + p.len() <= s.len() && s.subrange(at, at + p.len()) == p
}

pub fn str_matches_at(s: &str, at: usize, p: &str) -> (b: bool)
    requires
        at <= s@.len(),
    ensures
        b == matches_at(s@, at as int, p@),
{
    let sn = s.unicode_len();
    let pn = p.unicode_len();
    if pn > sn - at {
        assert(!matches_at(s@, at as int, p@));
        return false;
    }
    for i in 0..pn
        invariant
            sn == s@.len(),
            pn == p@.len(),
            at + pn <= sn,
            forall|j: int| 0 <= j < i ==> s@[at + j] == p@[j],
    {
        if s.get_char(at + i) != p.get_char(i) {
            assert(s@.subrange(at as int, at + pn)[i as int] != p@[i as int]);
            return false;
        }
    }
    assert(s@.subrange(at as int, at + pn) =~= p@);
    true
}

pub fn str_eq(s: &str, t: &str) -> (b: bool)
    ensures
        b == (s@ == t@),
{
    let sn = s.unicode_len();
    let tn = t.unicode_len();
    if sn != tn {
        return false;
    }
    for i in 0..sn
        invariant
            sn == s@.len(),
            tn == t@.len(),
            sn == tn,
            forall|j: int| 0 <= j < i ==> s@[j] == t@[j],
    {
        if s.get_char(i) != t.get_char(i) {
            return false;
        }
    }
    assert(s@ =~= t@);
    true
}

/// `p` occurs somewhere in `s`.
pub open spec fn contains_seq(s: Seq<char>, p: Seq<char>) -> bool {
    exists|i: int| matches_at(s, i, p)
}

pub fn str_contains(s: &str, p: &str) -> (b: bool)
    ensures
        b == contains_seq(s@, p@),
{
    let sn = s.unicode_len();
    let pn = p.unicode_len();
    if pn > sn {
        return false;
    }
    if pn == 0 {
        assert(matches_at(s@, 0, p@)) by {
            assert(s@.subrange(0, 0) =~= p@);
        }
        return true;
    }
    let mut i: usize = 0;
    while i <= sn - pn
        invariant
            sn == s@.len(),
            pn == p@.len(),
            1 <= pn <= sn,
            i <= sn - pn + 1,
            forall|j: int| 0 <= j < i ==> !matches_at(s@, j, p@),
        decreases sn - pn - i + 1,
    {
        if str_matches_at(s, i, p) {
            return true;
        }
        i = i + 1;
    }
    assert forall|j: int| !matches_at(s@, j, p@) by {
        if 0 <= j && j + pn <= sn {
            assert(!matches_at(s@, j, p@));
        }
    }
    false
}

/// The characters Rust's `char::is_whitespace` accepts: the Unicode
/// `White_Space` set.
pub open spec fn is_ws(c: char) -> bool {
    c == ' ' || c == '\t' || c == '\n' || c == '\u{b}' || c == '\u{c}' || c == '\r' || c == '\u{85}'
        || c == '\u{a0}' || c == '\u{1680}' || ('\u{2000}' <= c && c <= '\u{200a}') || c
        == '\u{2028}' || c == '\u{2029}' || c == '\u{202f}' || c == '\u{205f}' || c == '\u{3000}'
}

pub fn is_ws_char(c: char) -> (b: bool)
    ensures
        b == is_ws(c),
{
    c == ' ' || c == '\t' || c == '\n' || c == '\u{b}' || c == '\u{c}' || c == '\r' || c == '\u{85}'
        || c == '\u{a0}' || c == '\u{1680}' || ('\u{2000}' <= c && c <= '\u{200a}') || c
        == '\u{2028}' || c == '\u{2029}' || c == '\u{202f}' || c == '\u{205f}' || c == '\u{3000}'
}

/// Index of the first character at or after `i` that is whitespace, or the
/// length of `s` if none follows.
pub open spec fn ws_from(s: Seq<char>, i: int) -> int
    decreases s.len() - i,
{
    if i < 0 || i >= s.len() || is_ws(s[i]) {
        i
    } else {
        ws_from(s, i + 1)
    }
}

pub fn find_ws_from(s: &str, from: usize) -> (r: usize)
    requires
        from <= s@.len(),
    ensures
        r == ws_from(s@, from as int),
        from <= r <= s@.len(),
{
    let sn = s.unicode_len();
    let mut i: usize = from;
    while i < sn
        invariant
            sn == s@.len(),
            from <= i <= sn,
            ws_from(s@, from as int) == ws_from(s@, i as int),
        decreases sn - i,
    {
        if is_ws_char(s.get_char(i)) {
            return i;
        }
        i = i + 1;
    }
    i
}

/// Index of the first non-whitespace character at or after `i`, or the length
/// of `s` if all of the rest is whitespace.
pub open spec fn non_ws_from(s: Seq<char>, i: int) -> int
    decreases s.len() - i,
{
    if i < 0 || i >= s.len() || !is_ws(s[i]) {
        i
    } else {
        non_ws_from(s, i + 1)
    }
}

/// One past the index of the last non-whitespace character of `s.take(j)`, or
/// 0 if all of that prefix is whitespace.
pub open spec fn non_ws_until(s: Seq<char>, j: int) -> int
    decreases j,
{
    if j <= 0 || !is_ws(s[j - 1]) {
        j
    } else {
        non_ws_until(s, j - 1)
    }
}

pub proof fn lemma_non_ws_from(s: Seq<char>, i: int)
    requires
        0 <= i <= s.len(),
    ensures
        i <= non_ws_from(s, i) <= s.len(),
        non_ws_from(s, i) < s.len() ==> !is_ws(s[non_ws_from(s, i)]),
        forall|j: int| i <= j < non_ws_from(s, i) ==> is_ws(#[trigger] s[j]),
    decreases s.len() - i,
{
    if i < s.len() && is_ws(s[i]) {
        lemma_non_ws_from(s, i + 1);
    }
}

pub proof fn lemma_non_ws_until(s: Seq<char>, j: int)
    requires
        0 <= j <= s.len(),
    ensures
        0 <= non_ws_until(s, j) <= j,
        non_ws_until(s, j) > 0 ==> !is_ws(s[non_ws_until(s, j) - 1]),
        forall|k: int| non_ws_until(s, j) <= k < j ==> is_ws(#[trigger] s[k]),
    decreases j,
{
    if j > 0 && is_ws(s[j - 1]) {
        lemma_non_ws_until(s, j - 1);
    }
}

/// What `str::trim` leaves: `s` with leading and trailing whitespace removed.
pub open spec fn trim_spec(s: Seq<char>) -> Seq<char> {
    let a = non_ws_from(s, 0);
    if a == s.len() {
        Seq::empty()
    } else {
        s.subrange(a, non_ws_until(s, s.len() as int))
    }
}

/// Index of the first non-whitespace character of `s` at or after `from`, or
/// the length of `s`.
pub fn find_non_ws_from(s: &str, from: usize) -> (r: usize)
    requires
        from <= s@.len(),
    ensures
        r == non_ws_from(s@, from as int),
        from <= r <= s@.len(),
{
    let sn = s.unicode_len();
    let mut i: usize = from;
    while i < sn
        invariant
            sn == s@.len(),
            from <= i <= sn,
            non_ws_from(s@, from as int) == non_ws_from(s@, i as int),
        decreases sn - i,
    {
        if !is_ws_char(s.get_char(i)) {
            return i;
        }
        i = i + 1;
    }
    i
}

pub fn str_trim(s: &str) -> (r: String)
    ensures
        r@ == trim_spec(s@),
{
    let sn = s.unicode_len();
    let a = find_non_ws_from(s, 0);
    if a == sn {
        return String::new();
    }
    proof {
        lemma_non_ws_from(s@, 0);
    }
    let mut b: usize = sn;
    while b > 0
        invariant
            sn == s@.len(),
            0 <= b <= sn,
            non_ws_until(s@, sn as int) == non_ws_until(s@, b as int),
        ensures
            b == non_ws_until(s@, sn as int),
        decreases b,
    {
        if !is_ws_char(s.get_char(b - 1)) {
            break ;
        }
        b = b - 1;
    }
    proof {
        lemma_non_ws_until(s@, sn as int);
        if b <= a {
            assert(is_ws(s@[a as int]));
        }
    }
    let out = s.substring_char(a, b);
    String::from_str(out)
}

/// The characters `str::split_ascii_whitespace` splits on.
pub open spec fn is_ascii_ws(c: char) -> bool {
    c == ' ' || c == '\t' || c == '\n' || c == '\r' || c == '\u{c}'
}

pub fn is_ascii_ws_char(c: char) -> (b: bool)
    ensures
        b == is_ascii_ws(c),
{
    c == ' ' || c == '\t' || c == '\n' || c == '\r' || c == '\u{c}'
}

/// Index of the first ASCII-whitespace character at or after `i`, or the
/// length of `s`.
pub open spec fn ascii_ws_from(s: Seq<char>, i: int) -> int
    decreases s.len() - i,
{
    if i < 0 || i >= s.len() || is_ascii_ws(s[i]) {
        i
    } else {
        ascii_ws_from(s, i + 1)
    }
}

pub fn find_ascii_ws_from(s: &str, from: usize) -> (r: usize)
    requires
        from <= s@.len(),
    ensures
        r == ascii_ws_from(s@, from as int),
        from <= r <= s@.len(),
{
    let sn = s.unicode_len();
    let mut i: usize = from;
    while i < sn
        invariant
            sn == s@.len(),
            from <= i <= sn,
            ascii_ws_from(s@, from as int) == ascii_ws_from(s@, i as int),
        decreases sn - i,
    {
        if is_ascii_ws_char(s.get_char(i)) {
            return i;
        }
        i = i + 1;
    }
    i
}

/// Index of the first character at or after `i` that is not ASCII whitespace,
/// or the length of `s`.
pub open spec fn non_ascii_ws_from(s: Seq<char>, i: int) -> int
    decreases s.len() - i,
{
    if i < 0 || i >= s.len() || !is_ascii_ws(s[i]) {
        i
    } else {
        non_ascii_ws_from(s, i + 1)
    }
}

pub fn find_non_ascii_ws_from(s: &str, from: usize) -> (r: usize)
    requires
        from <= s@.len(),
    ensures
        r == non_ascii_ws_from(s@, from as int),
        from <= r <= s@.len(),
{
    let sn = s.unicode_len();
    let mut i: usize = from;
    while i < sn
        invariant
            sn == s@.len(),
            from <= i <= sn,
            non_ascii_ws_from(s@, from as int) == non_ascii_ws_from(s@, i as int),
        decreases sn - i,
    {
        if !is_ascii_ws_char(s.get_char(i)) {
            return i;
        }
        i = i + 1;
    }
    i
}

/// Index of the first occurrence of `c` at or after `i`, or the length of `s`.
pub open spec fn char_from(s: Seq<char>, i: int, c: char) -> int
    decreases s.len() - i,
{
    if i < 0 || i >= s.len() || s[i] == c {
        i
    } else {
        char_from(s, i + 1, c)
    }
}

pub fn find_char_from(s: &str, from: usize, c: char) -> (r: usize)
    requires
        from <= s@.len(),
    ensures
        r == char_from(s@, from as int, c),
        from <= r <= s@.len(),
{
    let sn = s.unicode_len();
    let mut i: usize = from;
    while i < sn
        invariant
            sn == s@.len(),
            from <= i <= sn,
            char_from(s@, from as int, c) == char_from(s@, i as int, c),
        decreases sn - i,
    {
        if s.get_char(i) == c {
            return i;
        }
        i = i + 1;
    }
    i
}

/// A decimal digit.
pub open spec fn is_digit(c: char) -> bool {
    '0' <= c && c <= '9'
}

pub fn is_digit_char(c: char) -> (b: bool)
    ensures
        b == is_digit(c),
{
    '0' <= c && c <= '9'
}

pub open spec fn digit_val(c: char) -> int {
    c as int - '0' as int
}

pub open spec fn all_digits(s: Seq<char>) -> bool {
    forall|i: int| 0 <= i < s.len() ==> is_digit(#[trigger] s[i])
}

/// The number a sequence of decimal digits denotes.
pub open spec fn digits_val(s: Seq<char>) -> int
    decreases s.len(),
{
    if s.len() == 0 {
        0
    } else {
        digits_val(s.drop_last()) * 10 + digit_val(s.last())
    }
}

/// Parses a non-empty, all-digit sequence of characters into a `usize`; `None`
/// if `s` is empty, holds a non-digit, or denotes a number above `usize::MAX`.
pub open spec fn parse_usize_spec(s: Seq<char>) -> Option<usize> {
    if s.len() > 0 && all_digits(s) && digits_val(s) <= usize::MAX {
        Some(digits_val(s) as usize)
    } else {
        None
    }
}

pub proof fn lemma_digits_val_bounds(s: Seq<char>)
    requires
        all_digits(s),
    ensures
        digits_val(s) >= 0,
        s.len() > 0 ==> digits_val(s) >= digits_val(s.drop_last()),
    decreases s.len(),
{
    if s.len() > 0 {
        assert(all_digits(s.drop_last()));
        lemma_digits_val_bounds(s.drop_last());
    }
}

pub fn parse_usize(s: &str, from: usize, to: usize) -> (r: Option<usize>)
    requires
        from <= to <= s@.len(),
    ensures
        r == parse_usize_spec(s@.subrange(from as int, to as int)),
{
    let ghost digits = s@.subrange(from as int, to as int);
    if from == to {
        return None;
    }
    let mut acc: usize = 0;
    let mut i: usize = from;
    while i < to
        invariant
            from <= i <= to <= s@.len(),
            digits == s@.subrange(from as int, to as int),
            all_digits(s@.subrange(from as int, i as int)),
            acc == digits_val(s@.subrange(from as int, i as int)),
        decreases to - i,
    {
        let c = s.get_char(i);
        if !is_digit_char(c) {
            assert(digits[i - from] == c);
            return None;
        }
        let d: usize = (c as u32 as usize) - ('0' as u32 as usize);
        let acc10 = match acc.checked_mul(10) {
            Some(v) => v,
            None => {
                proof {
                    lemma_digits_overflow(s@, from as int, i as int, to as int, acc as int);
                }
                return None;
            },
        };
        let next = match acc10.checked_add(d) {
            Some(v) => v,
            None => {
                proof {
                    lemma_digits_overflow(s@, from as int, i as int, to as int, acc as int);
                }
                return None;
            },
        };
        proof {
            assert(s@.subrange(from as int, i + 1).drop_last() =~= s@.subrange(
                from as int,
                i as int,
            ));
            assert(s@.subrange(from as int, i + 1).last() == c);
        }
        acc = next;
        i = i + 1;
    }
    assert(s@.subrange(from as int, i as int) =~= digits);
    Some(acc)
}

/// If the prefix already read denotes more than fits with the next digit, the
/// whole digit run denotes more than `usize::MAX`.
proof fn lemma_digits_overflow(s: Seq<char>, from: int, i: int, to: int, acc: int)
    requires
        0 <= from <= i < to <= s.len(),
        all_digits(s.subrange(from, i)),
        is_digit(s[i]),
        acc == digits_val(s.subrange(from, i)),
        acc * 10 + digit_val(s[i]) > usize::MAX,
    ensures
        all_digits(s.subrange(from, to)) ==> digits_val(s.subrange(from, to)) > usize::MAX,
{
    if all_digits(s.subrange(from, to)) {
        lemma_digits_val_monotonic(s, from, i + 1, to);
        assert(s.subrange(from, i + 1).drop_last() =~= s.subrange(from, i));
        assert(s.subrange(from, i + 1).last() == s[i]);
        assert(digits_val(s.subrange(from, i + 1)) == acc * 10 + digit_val(s[i]));
    }
}

/// A longer digit run never denotes a smaller number.
proof fn lemma_digits_val_monotonic(s: Seq<char>, from: int, mid: int, to: int)
    requires
        0 <= from <= mid <= to <= s.len(),
        all_digits(s.subrange(from, to)),
    ensures
        digits_val(s.subrange(from, to)) >= digits_val(s.subrange(from, mid)),
        digits_val(s.subrange(from, to)) >= 0,
    decreases to - mid,
{
    assert forall|i: int| 0 <= i < mid - from implies is_digit(
        #[trigger] s.subrange(from, mid)[i],
    ) by {
        assert(s.subrange(from, to)[i] == s.subrange(from, mid)[i]);
    }
    if mid == to {
        lemma_digits_val_bounds(s.subrange(from, to));
    } else {
        lemma_digits_val_monotonic(s, from, mid + 1, to);
        let a = s.subrange(from, mid);
        let b = s.subrange(from, mid + 1);
        assert(b.drop_last() =~= a);
        assert(is_digit(b.last())) by {
            assert(b.last() == s.subrange(from, to)[mid - from]);
        }
        lemma_digits_val_bounds(a);
        assert(digits_val(b) == digits_val(a) * 10 + digit_val(b.last()));
        assert(digits_val(a) * 10 >= digits_val(a)) by (nonlinear_arith)
            requires
                digits_val(a) >= 0,
        ;
    }
}

/// The decimal digit character for `d`.
pub open spec fn digit_char(d: int) -> char {
    if d == 0 {
        '0'
    } else if d == 1 {
        '1'
    } else if d == 2 {
        '2'
    } else if d == 3 {
        '3'
    } else if d == 4 {
        '4'
    } else if d == 5 {
        '5'
    } else if d == 6 {
        '6'
    } else if d == 7 {
        '7'
    } else if d == 8 {
        '8'
    } else {
        '9'
    }
}

/// The decimal representation of `n`, most significant digit first.
pub open spec fn dec_rep(n: int) -> Seq<char>
    decreases n,
{
    if n < 10 {
        seq![digit_char(n)]
    } else {
        dec_rep(n / 10).push(digit_char(n % 10))
    }
}

fn append_digit(out: &mut String, d: usize)
    requires
        d < 10,
    ensures
        final(out)@ == old(out)@ + seq![digit_char(d as int)],
{
    proof {
        reveal_strlit("0");
        reveal_strlit("1");
        reveal_strlit("2");
        reveal_strlit("3");
        reveal_strlit("4");
        reveal_strlit("5");
        reveal_strlit("6");
        reveal_strlit("7");
        reveal_strlit("8");
        reveal_strlit("9");
    }
    match d {
        0 => out.append("0"),
        1 => out.append("1"),
        2 => out.append("2"),
        3 => out.append("3"),
        4 => out.append("4"),
        5 => out.append("5"),
        6 => out.append("6"),
        7 => out.append("7"),
        8 => out.append("8"),
        _ => out.append("9"),
    }
}

/// Appends the decimal representation of `n` to `out`.
pub fn append_decimal(out: &mut String, n: usize)
    ensures
        final(out)@ == old(out)@ + dec_rep(n as int),
    decreases n,
{
    if n >= 10 {
        append_decimal(out, n / 10);
        append_digit(out, n % 10);
    } else {
        append_digit(out, n);
    }
}

/// The decimal representation of `n` as a `String`.
pub fn usize_to_string(n: usize) -> (r: String)
    ensures
        r@ == dec_rep(n as int),
{
    let mut out = String::new();
    append_decimal(&mut out, n);
    assert(out@ =~= dec_rep(n as int));
    out
}

/// Index of the first non-digit character at or after `i`, or the length of
/// `s`.
pub open spec fn non_digit_from(s: Seq<char>, i: int) -> int
    decreases s.len() - i,
{
    if i < 0 || i >= s.len() || !is_digit(s[i]) {
        i
    } else {
        non_digit_from(s, i + 1)
    }
}

pub fn find_non_digit_from(s: &str, from: usize) -> (r: usize)
    requires
        from <= s@.len(),
    ensures
        r == non_digit_from(s@, from as int),
        from <= r <= s@.len(),
{
    let sn = s.unicode_len();
    let mut i: usize = from;
    while i < sn
        invariant
            sn == s@.len(),
            from <= i <= sn,
            non_digit_from(s@, from as int) == non_digit_from(s@, i as int),
        decreases sn - i,
    {
        if !is_digit_char(s.get_char(i)) {
            return i;
        }
        i = i + 1;
    }
    i
}

pub proof fn lemma_non_digit_from(s: Seq<char>, i: int)
    requires
        0 <= i <= s.len(),
    ensures
        i <= non_digit_from(s, i) <= s.len(),
        non_digit_from(s, i) < s.len() ==> !is_digit(s[non_digit_from(s, i)]),
        forall|j: int| i <= j < non_digit_from(s, i) ==> is_digit(#[trigger] s[j]),
    decreases s.len() - i,
{
    if i < s.len() && is_digit(s[i]) {
        lemma_non_digit_from(s, i + 1);
    }
}

/// Copies a vector of strings, value for value.
pub fn clone_string_vec(v: &Vec<String>) -> (r: Vec<String>)
    ensures
        r.deep_view() == v.deep_view(),
{
    let mut out: Vec<String> = Vec::new();
    let n = v.len();
    for i in 0..n
        invariant
            n == v.len(),
            out.len() == i,
            out.deep_view() =~~= v.deep_view().take(i as int),
    {
        let ghost pre = out.deep_view();
        out.push(v[i].clone());
        proof {
            assert(out@.len() == i + 1);
            assert forall|k: int| 0 <= k < i + 1 implies out.deep_view()[k] == v.deep_view().take(
                i + 1,
            )[k] by {
                if k < i {
                    assert(out.deep_view()[k] == pre[k]);
                    assert(pre[k] == v.deep_view()[k]);
                } else {
                    assert(out@[k] == v@[i as int]);
                }
            }
            assert(out.deep_view() =~= v.deep_view().take(i + 1));
        }
    }
    assert(v.deep_view().take(n as int) =~~= v.deep_view());
    out
}

/// Start of the maximal run of decimal digits that ends just before `j`; `j`
/// itself if `s[j - 1]` is not a digit.
pub open spec fn digit_run_start(s: Seq<char>, j: int) -> int
    decreases j,
{
    if j <= 0 || j > s.len() || !is_digit(s[j - 1]) {
        j
    } else {
        digit_run_start(s, j - 1)
    }
}

pub fn find_digit_run_start(s: &str, to: usize) -> (r: usize)
    requires
        to <= s@.len(),
    ensures
        r == digit_run_start(s@, to as int),
        r <= to,
{
    let mut j: usize = to;
    while j > 0
        invariant
            to <= s@.len(),
            j <= to,
            digit_run_start(s@, to as int) == digit_run_start(s@, j as int),
        decreases j,
    {
        if !is_digit_char(s.get_char(j - 1)) {
            return j;
        }
        j = j - 1;
    }
    j
}

pub proof fn lemma_digit_run_start(s: Seq<char>, j: int)
    requires
        0 <= j <= s.len(),
    ensures
        0 <= digit_run_start(s, j) <= j,
        forall|k: int| digit_run_start(s, j) <= k < j ==> is_digit(#[trigger] s[k]),
        digit_run_start(s, j) > 0 ==> !is_digit(s[digit_run_start(s, j) - 1]),
    decreases j,
{
    if j > 0 && is_digit(s[j - 1]) {
        lemma_digit_run_start(s, j - 1);
    }
}

/// `s` with every carriage return removed.
pub open spec fn strip_cr(s: Seq<char>) -> Seq<char>
    decreases s.len(),
{
    if s.len() == 0 {
        Seq::empty()
    } else if s.last() == '\r' {
        strip_cr(s.drop_last())
    } else {
        strip_cr(s.drop_last()).push(s.last())
    }
}

/// Returns `s` with every carriage return removed.
pub fn remove_cr(s: &str) -> (r: String)
    ensures
        r@ == strip_cr(s@),
{
    let sn = s.unicode_len();
    let mut out = String::new();
    for i in 0..sn
        invariant
            sn == s@.len(),
            out@ == strip_cr(s@.take(i as int)),
    {
        let c = s.get_char(i);
        proof {
            assert(s@.take(i + 1).drop_last() =~= s@.take(i as int));
            assert(s@.take(i + 1).last() == s@[i as int]);
        }
        if c != '\r' {
            out.append(s.substring_char(i, i + 1));
            proof {
                assert(s@.subrange(i as int, i + 1) =~= seq![s@[i as int]]);
                assert(out@ =~= strip_cr(s@.take(i + 1)));
            }
        }
    }
    assert(s@.take(sn as int) =~= s@);
    out
}

/// `s` split on `c`: always at least one part; no part holds `c`.
pub open spec fn split_char(s: Seq<char>, c: char) -> Seq<Seq<char>>
    decreases s.len(),
{
    if s.len() == 0 {
        seq![Seq::<char>::empty()]
    } else {
        let rest = split_char(s.drop_last(), c);
        if s.last() == c {
            rest.push(Seq::<char>::empty())
        } else {
            rest.update(rest.len() - 1, rest.last().push(s.last()))
        }
    }
}

pub proof fn lemma_split_char_len(s: Seq<char>, c: char)
    ensures
        split_char(s, c).len() >= 1,
    decreases s.len(),
{
    if s.len() > 0 {
        lemma_split_char_len(s.drop_last(), c);
    }
}

/// Splits `s` on `c`; the result always has at least one element.
pub fn split_str(s: &str, c: char) -> (r: Vec<String>)
    ensures
        r.deep_view() == split_char(s@, c),
        r.len() >= 1,
{
    let sn = s.unicode_len();
    let mut out: Vec<String> = Vec::new();
    let mut cur = String::new();
    for i in 0..sn
        invariant
            sn == s@.len(),
            out.deep_view().push(cur@) =~~= split_char(s@.take(i as int), c),
    {
        let ch = s.get_char(i);
        proof {
            assert(s@.take(i + 1).drop_last() =~= s@.take(i as int));
            assert(s@.take(i + 1).last() == s@[i as int]);
            lemma_split_char_len(s@.take(i as int), c);
        }
        if ch == c {
            out.push(cur);
            cur = String::new();
            assert(out.deep_view().push(cur@) =~~= split_char(s@.take(i + 1), c));
        } else {
            cur.append(s.substring_char(i, i + 1));
            proof {
                assert(s@.subrange(i as int, i + 1) =~= seq![s@[i as int]]);
                let prev = split_char(s@.take(i as int), c);
                assert(prev.update(prev.len() - 1, prev.last().push(s@[i as int])) =~~= out.deep_view().push(cur@));
            }
        }
    }
    assert(s@.take(sn as int) =~= s@);
    let ghost final_parts = split_char(s@, c);
    out.push(cur);
    proof {
        lemma_split_char_len(s@, c);
        assert(out.deep_view() =~~= final_parts);
    }
    out
}

/// `parts` joined by `sep`.
pub open spec fn join_with(parts: Seq<Seq<char>>, sep: Seq<char>) -> Seq<char>
    decreases parts.len(),
{
    if parts.len() == 0 {
        Seq::empty()
    } else if parts.len() == 1 {
        parts[0]
    } else {
        parts[0] + sep + join_with(parts.drop_first(), sep)
    }
}

pub proof fn lemma_join_push(parts: Seq<Seq<char>>, sep: Seq<char>, x: Seq<char>)
    ensures
        join_with(parts.push(x), sep) == if parts.len() == 0 {
            x
        } else {
            join_with(parts, sep) + sep + x
        },
    decreases parts.len(),
{
    if parts.len() == 0 {
        assert(join_with(parts.push(x), sep) == parts.push(x)[0]);
        assert(parts.push(x)[0] == x);
    } else {
        let p = parts.push(x);
        assert(p.drop_first() =~= parts.drop_first().push(x));
        lemma_join_push(parts.drop_first(), sep, x);
        if parts.len() == 1 {
            assert(join_with(parts, sep) == parts[0]);
            assert(join_with(p, sep) == p[0] + sep + join_with(p.drop_first(), sep));
        } else {
            assert(join_with(p, sep) =~= parts[0] + sep + (join_with(parts.drop_first(), sep) + sep
                + x));
            assert(parts[0] + sep + (join_with(parts.drop_first(), sep) + sep + x) =~= (parts[0]
                + sep + join_with(parts.drop_first(), sep)) + sep + x);
        }
    }
}

/// Joins the strings of `parts` with separator `sep`.
pub fn join_strings(parts: &Vec<String>, sep: &str) -> (r: String)
    ensures
        r@ == join_with(parts.deep_view(), sep@),
{
    let mut out = String::new();
    let n = parts.len();
    for i in 0..n
        invariant
            n == parts.len(),
            out@ == join_with(parts.deep_view().take(i as int), sep@),
    {
        if i > 0 {
            out.append(sep);
        }
        out.append(parts[i].as_str());
        proof {
            let pv = parts.deep_view();
            assert(pv.take(i + 1) =~= pv.take(i as int).push(pv[i as int]));
            lemma_join_push(pv.take(i as int), sep@, pv[i as int]);
        }
    }
    assert(parts.deep_view().take(n as int) =~= parts.deep_view());
    out
}

} // verus!
