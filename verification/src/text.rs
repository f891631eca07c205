//! Character-level text utilities shared by the decoders.
//!
//! Every raw source this crate decodes is, at bottom, text or bytes.
//! The helpers here give the decoders a small verified vocabulary:
//! turning a `&str` into its characters and back, rendering integers in
//! decimal, parsing decimal and hexadecimal numerals, splitting on
//! whitespace and line breaks, and searching for characters and
//! substrings.

use vstd::prelude::*;
use vstd::arithmetic::div_mod::lemma_fundamental_div_mod;

verus! {

/// Relies on `String::push`, which appends the given character to the
/// end of the string.
pub assume_specification[ String::push ](s: &mut String, c: char)
    ensures
        final(s)@ == old(s)@.push(c),
;

/// The characters of a string slice, in order.
pub fn chars_of(s: &str) -> (r: Vec<char>)
    ensures
        r@ == s@,
{
    let n = s.unicode_len();
    let mut r: Vec<char> = Vec::new();
    let mut i: usize = 0;
    while i < n
        invariant
            n == s@.len(),
            i <= n,
            r@ == s@.take(i as int),
        decreases n - i,
    {
        r.push(s.get_char(i));
        assert(s@.take(i + 1) =~= s@.take(i as int).push(s@[i as int]));
        i = i + 1;
    }
    assert(s@.take(n as int) =~= s@);
    r
}

/// A freshly allocated string holding exactly the given characters.
pub fn string_of(v: &Vec<char>) -> (r: String)
    ensures
        r@ == v@,
{
    let mut r = String::new();
    let mut i: usize = 0;
    while i < v.len()
        invariant
            i <= v@.len(),
            r@ == v@.take(i as int),
        decreases v@.len() - i,
    {
        r.push(v[i]);
        assert(v@.take(i + 1) =~= v@.take(i as int).push(v@[i as int]));
        i = i + 1;
    }
    assert(v@.take(v@.len() as int) =~= v@);
    r
}

/// The decimal digit character for a value below ten.
pub open spec fn digit_char(d: nat) -> char {
    (48 + d) as char
}

/// The decimal numeral of `n`, as written by ordinary base-ten
/// formatting: no sign, no leading zeros, `0` written as `"0"`.
pub open spec fn dec_str(n: nat) -> Seq<char>
    decreases n,
{
    if n < 10 {
        seq![digit_char(n)]
    } else {
        dec_str(n / 10).push(digit_char(n % 10))
    }
}

/// Appends the decimal numeral of `n` to `out`.
pub fn push_dec_u32(out: &mut Vec<char>, n: u32)
    ensures
        final(out)@ == old(out)@ + dec_str(n as nat),
    decreases n,
{
    if n < 10 {
        out.push(((48 + n) as u8) as char);
        assert(old(out)@.push(digit_char(n as nat)) =~= old(out)@ + dec_str(n as nat));
    } else {
        push_dec_u32(out, n / 10);
        let d: u32 = n % 10;
        out.push(((48 + d) as u8) as char);
        assert(old(out)@ + dec_str((n / 10) as nat) + seq![digit_char((n % 10) as nat)] =~= old(
            out,
        )@ + dec_str(n as nat));
    }
}

/// The decimal numeral of `n` as a character vector.
pub fn dec_chars_u32(n: u32) -> (r: Vec<char>)
    ensures
        r@ == dec_str(n as nat),
{
    let mut r: Vec<char> = Vec::new();
    push_dec_u32(&mut r, n);
    assert(Seq::<char>::empty() + dec_str(n as nat) =~= dec_str(n as nat));
    r
}

/// The decimal numeral of `n` as a freshly allocated string.
pub fn u32_to_string(n: u32) -> (r: String)
    ensures
        r@ == dec_str(n as nat),
{
    let v = dec_chars_u32(n);
    string_of(&v)
}

/// Whether `p` is an initial segment of `s`.
pub open spec fn prefix_of(p: Seq<char>, s: Seq<char>) -> bool {
    p.len() <= s.len() && p == s.take(p.len() as int)
}

/// Whether the characters of `p` open the vector `v`.
pub fn starts_with_chars(v: &Vec<char>, p: &Vec<char>) -> (r: bool)
    ensures
        r == prefix_of(p@, v@),
{
    if p.len() > v.len() {
        return false;
    }
    let mut i: usize = 0;
    while i < p.len()
        invariant
            p@.len() <= v@.len(),
            i <= p@.len(),
            forall|j: int| 0 <= j < i ==> p@[j] == v@[j],
        decreases p@.len() - i,
    {
        if p[i] != v[i] {
            assert(p@[i as int] != v@.take(p@.len() as int)[i as int]);
            return false;
        }
        i = i + 1;
    }
    assert(p@ =~= v@.take(p@.len() as int));
    true
}

/// Whether the vector holds exactly the characters of the slice.
pub fn chars_eq_str(v: &Vec<char>, s: &str) -> (r: bool)
    ensures
        r == (v@ == s@),
{
    let n = s.unicode_len();
    if v.len() != n {
        return false;
    }
    let mut i: usize = 0;
    while i < n
        invariant
            n == s@.len(),
            v@.len() == n,
            i <= n,
            forall|j: int| 0 <= j < i ==> v@[j] == s@[j],
        decreases n - i,
    {
        if v[i] != s.get_char(i) {
            return false;
        }
        i = i + 1;
    }
    assert(v@ =~= s@);
    true
}

/// The numeric value of a digit character: `0`–`9`, then `a`–`f` and
/// `A`–`F` for hexadecimal; any other character maps to 16, which no
/// base accepted here reaches.
pub open spec fn digit_of(c: char) -> nat {
    let v = c as int;
    if 48 <= v <= 57 {
        (v - 48) as nat
    } else if 97 <= v <= 102 {
        (v - 87) as nat
    } else if 65 <= v <= 70 {
        (v - 55) as nat
    } else {
        16
    }
}

/// Whether `c` is a digit of the given base.
pub open spec fn is_digit(c: char, base: nat) -> bool {
    digit_of(c) < base
}

/// Whether every character of `s` is a digit of the given base.
pub open spec fn all_digits(s: Seq<char>, base: nat) -> bool {
    forall|i: int| 0 <= i < s.len() ==> is_digit(#[trigger] s[i], base)
}

/// The value of a digit string read in the given base, most significant
/// digit first.
pub open spec fn radix_val(s: Seq<char>, base: nat) -> nat
    decreases s.len(),
{
    if s.len() == 0 {
        0
    } else {
        radix_val(s.drop_last(), base) * base + digit_of(s.last())
    }
}

/// What parsing a numeral yields: the value of the digits, provided the
/// string is nonempty, made of digits of the base alone, and its value
/// does not exceed `max`; otherwise nothing.
pub open spec fn spec_parse_radix(s: Seq<char>, base: nat, max: nat) -> Option<u64> {
    if s.len() > 0 && all_digits(s, base) && radix_val(s, base) <= max {
        Some(radix_val(s, base) as u64)
    } else {
        None
    }
}

proof fn lemma_radix_val_prefix_le(s: Seq<char>, i: int, base: nat)
    requires
        1 <= base,
        0 <= i <= s.len(),
    ensures
        radix_val(s.take(i), base) <= radix_val(s, base),
    decreases s.len() - i,
{
    if i < s.len() {
        assert(s.drop_last().take(i) =~= s.take(i));
        lemma_radix_val_prefix_le(s.drop_last(), i, base);
        assert(radix_val(s.drop_last(), base) * base >= radix_val(s.drop_last(), base) * 1)
            by (nonlinear_arith)
            requires
                base >= 1,
        ;
    } else {
        assert(s.take(i) =~= s);
    }
}

/// The exec digit value of a character, matching [`digit_of`].
pub fn digit_val(c: char) -> (d: u32)
    ensures
        d as nat == digit_of(c),
{
    let v = c as u32;
    if 48 <= v && v <= 57 {
        v - 48
    } else if 97 <= v && v <= 102 {
        v - 87
    } else if 65 <= v && v <= 70 {
        v - 55
    } else {
        16
    }
}

/// Parses a numeral of the given base, rejecting values above `max`.
pub fn parse_radix_bounded(tok: &Vec<char>, base: u32, max: u64) -> (r: Option<u64>)
    requires
        base == 10 || base == 16,
        max >= 15,
    ensures
        r == spec_parse_radix(tok@, base as nat, max as nat),
{
    if tok.len() == 0 {
        return None;
    }
    let b64: u64 = base as u64;
    let mut acc: u64 = 0;
    let mut i: usize = 0;
    while i < tok.len()
        invariant
            base == 10 || base == 16,
            max >= 15,
            b64 == base as u64,
            i <= tok@.len(),
            forall|j: int| 0 <= j < i ==> is_digit(#[trigger] tok@[j], base as nat),
            acc as nat == radix_val(tok@.take(i as int), base as nat),
            acc <= max,
        decreases tok@.len() - i,
    {
        let d = digit_val(tok[i]);
        if d >= base {
            assert(!is_digit(tok@[i as int], base as nat));
            return None;
        }
        let d64: u64 = d as u64;
        assert(tok@.take(i + 1).drop_last() =~= tok@.take(i as int));
        assert(radix_val(tok@.take(i + 1), base as nat) == acc as nat * base + d);
        if acc > (max - d64) / b64 {
            proof {
                lemma_fundamental_div_mod((max - d64) as int, b64 as int);
                assert(acc as nat * base + d > max) by (nonlinear_arith)
                    requires
                        base >= 2,
                        d < base,
                        acc > ((max - d64) as u64 / b64),
                        b64 == base,
                        d64 == d,
                        (max - d64) as int == b64 as int * (((max - d64) as u64 / b64) as int) + (
                        (max - d64) as u64 % b64) as int,
                        ((max - d64) as u64 % b64) < b64,
                ;
                lemma_radix_val_prefix_le(tok@, i + 1, base as nat);
            }
            return None;
        }
        proof {
            lemma_fundamental_div_mod((max - d64) as int, b64 as int);
            assert(acc as nat * base + d <= max) by (nonlinear_arith)
                requires
                    base >= 2,
                    d < base,
                    acc <= ((max - d64) as u64 / b64),
                    b64 == base,
                    d64 == d,
                    (max - d64) as int == b64 as int * (((max - d64) as u64 / b64) as int) + ((max
                        - d64) as u64 % b64) as int,
                    ((max - d64) as u64 % b64) >= 0,
            ;
        }
        acc = acc * b64 + d64;
        i = i + 1;
    }
    assert(tok@.take(tok@.len() as int) =~= tok@);
    Some(acc)
}

/// Parses a decimal numeral into a `u64`.
pub fn parse_dec_u64(tok: &Vec<char>) -> (r: Option<u64>)
    ensures
        r == spec_parse_radix(tok@, 10, u64::MAX as nat),
{
    parse_radix_bounded(tok, 10, u64::MAX)
}

/// Parses a decimal numeral into a `u32`.
pub fn parse_dec_u32(tok: &Vec<char>) -> (r: Option<u32>)
    ensures
        r matches Some(v) ==> spec_parse_radix(tok@, 10, u32::MAX as nat) == Some(v as u64),
        r is None ==> spec_parse_radix(tok@, 10, u32::MAX as nat) is None,
{
    match parse_radix_bounded(tok, 10, u32::MAX as u64) {
        Some(v) => Some(v as u32),
        None => None,
    }
}

/// Parses a hexadecimal numeral into a `u16`.
pub fn parse_hex_u16(tok: &Vec<char>) -> (r: Option<u16>)
    ensures
        r matches Some(v) ==> spec_parse_radix(tok@, 16, u16::MAX as nat) == Some(v as u64),
        r is None ==> spec_parse_radix(tok@, 16, u16::MAX as nat) is None,
{
    match parse_radix_bounded(tok, 16, u16::MAX as u64) {
        Some(v) => Some(v as u16),
        None => None,
    }
}

/// Parses a hexadecimal numeral into a `u32`.
pub fn parse_hex_u32(tok: &Vec<char>) -> (r: Option<u32>)
    ensures
        r matches Some(v) ==> spec_parse_radix(tok@, 16, u32::MAX as nat) == Some(v as u64),
        r is None ==> spec_parse_radix(tok@, 16, u32::MAX as nat) is None,
{
    match parse_radix_bounded(tok, 16, u32::MAX as u64) {
        Some(v) => Some(v as u32),
        None => None,
    }
}

/// A copy of the characters of `v` between `from` and `to`.
pub fn subvec(v: &Vec<char>, from: usize, to: usize) -> (r: Vec<char>)
    requires
        from <= to <= v@.len(),
    ensures
        r@ == v@.subrange(from as int, to as int),
{
    let mut r: Vec<char> = Vec::new();
    let mut i: usize = from;
    while i < to
        invariant
            from <= i <= to <= v@.len(),
            r@ == v@.subrange(from as int, i as int),
        decreases to - i,
    {
        r.push(v[i]);
        assert(v@.subrange(from as int, i + 1) =~= v@.subrange(from as int, i as int).push(
            v@[i as int],
        ));
        i = i + 1;
    }
    r
}

/// The whitespace characters recognized when a row is split into
/// columns: space, tab, and the two line-break characters.
pub open spec fn is_ws(c: char) -> bool {
    c == ' ' || c == '\t' || c == '\n' || c == '\r'
}

/// The length of the maximal non-whitespace prefix of `s`.
pub open spec fn token_len(s: Seq<char>) -> nat
    decreases s.len(),
{
    if s.len() == 0 || is_ws(s[0]) {
        0
    } else {
        1 + token_len(s.drop_first())
    }
}

proof fn lemma_token_len_le(s: Seq<char>)
    ensures
        token_len(s) <= s.len(),
    decreases s.len(),
{
    if !(s.len() == 0 || is_ws(s[0])) {
        lemma_token_len_le(s.drop_first());
    }
}

/// The columns of `s`: the maximal runs of non-whitespace characters,
/// in order.
pub open spec fn spec_split_ws(s: Seq<char>) -> Seq<Seq<char>>
    decreases s.len(),
    via spec_split_ws_dec
{
    if s.len() == 0 {
        Seq::empty()
    } else if is_ws(s[0]) {
        spec_split_ws(s.drop_first())
    } else {
        let t = 1 + token_len(s.drop_first());
        seq![s.take(t as int)] + spec_split_ws(s.skip(t as int))
    }
}

#[via_fn]
proof fn spec_split_ws_dec(s: Seq<char>) {
    if s.len() != 0 && !is_ws(s[0]) {
        lemma_token_len_le(s.drop_first());
    }
}

proof fn lemma_token_len_at(s: Seq<char>, n: int)
    requires
        0 <= n <= s.len(),
        forall|k: int| 0 <= k < n ==> !is_ws(#[trigger] s[k]),
        n == s.len() || is_ws(s[n]),
    ensures
        token_len(s) == n,
    decreases n,
{
    if n > 0 {
        lemma_token_len_at(s.drop_first(), n - 1);
    }
}

/// The image of a vector of character vectors: each element replaced
/// by its view.
pub open spec fn toks_view(ts: Seq<Vec<char>>) -> Seq<Seq<char>> {
    ts.map_values(|t: Vec<char>| t@)
}

/// Splits into whitespace-separated columns.
pub fn split_ws(v: &Vec<char>) -> (r: Vec<Vec<char>>)
    ensures
        toks_view(r@) == spec_split_ws(v@),
{
    let n = v.len();
    let mut r: Vec<Vec<char>> = Vec::new();
    let mut i: usize = 0;
    proof {
        assert(v@.skip(0) =~= v@);
        assert(toks_view(r@) + spec_split_ws(v@) =~= spec_split_ws(v@));
    }
    while i < n
        invariant
            n == v@.len(),
            i <= n,
            spec_split_ws(v@) == toks_view(r@) + spec_split_ws(v@.skip(i as int)),
        decreases n - i,
    {
        if is_ws_exec(v[i]) {
            assert(v@.skip(i as int).drop_first() =~= v@.skip(i + 1));
            i = i + 1;
        } else {
            let start = i;
            let mut j = i + 1;
            while j < n && !is_ws_exec(v[j])
                invariant
                    n == v@.len(),
                    start < j <= n,
                    forall|k: int| start <= k < j ==> !is_ws(#[trigger] v@[k]),
                decreases n - j,
            {
                j = j + 1;
            }
            proof {
                let suf = v@.skip(start as int);
                assert(forall|k: int|
                    0 <= k < j - start ==> !is_ws(#[trigger] suf[k]) && suf[k] == v@[k
                        + start]);
                lemma_token_len_at(suf, j - start);
                assert(suf.take((j - start) as int) =~= v@.subrange(start as int, j as int));
                assert(suf.skip((j - start) as int) =~= v@.skip(j as int));
            }
            let tok = subvec(v, start, j);
            r.push(tok);
            proof {
                let f = |t: Vec<char>| t@;
                assert(toks_view(r@) =~= toks_view(r@.drop_last()).push(tok@));
                assert(toks_view(r@.drop_last()) + (seq![tok@] + spec_split_ws(
                    v@.skip(j as int),
                )) =~= toks_view(r@) + spec_split_ws(v@.skip(j as int)));
            }
            i = j;
        }
    }
    assert(spec_split_ws(v@.skip(n as int)) =~= Seq::<Seq<char>>::empty()) by {
        assert(v@.skip(n as int) =~= Seq::<char>::empty());
    }
    assert(toks_view(r@) + Seq::<Seq<char>>::empty() =~= toks_view(r@));
    r
}

/// Whether `pat` occurs in `s` starting at position `i`.
pub open spec fn matches_at(s: Seq<char>, pat: Seq<char>, i: int) -> bool {
    0 <= i && i + pat.len() <= s.len() && s.subrange(i, i + pat.len()) == pat
}

/// The first position at which `c` occurs in `s`.
pub open spec fn spec_find_char(s: Seq<char>, c: char) -> Option<int>
    decreases s.len(),
{
    if s.len() == 0 {
        None
    } else if s[0] == c {
        Some(0)
    } else {
        match spec_find_char(s.drop_first(), c) {
            Some(i) => Some(i + 1),
            None => None,
        }
    }
}

/// The last position at which `c` occurs in `s`.
pub open spec fn spec_rfind_char(s: Seq<char>, c: char) -> Option<int>
    decreases s.len(),
{
    if s.len() == 0 {
        None
    } else if s.last() == c {
        Some(s.len() - 1)
    } else {
        spec_rfind_char(s.drop_last(), c)
    }
}

/// The first position at which `pat` occurs in `s`.
pub open spec fn spec_find_sub(s: Seq<char>, pat: Seq<char>) -> Option<int>
    decreases s.len(),
{
    if matches_at(s, pat, 0) {
        Some(0)
    } else if s.len() == 0 {
        None
    } else {
        match spec_find_sub(s.drop_first(), pat) {
            Some(i) => Some(i + 1),
            None => None,
        }
    }
}

/// Whether `pat` occurs anywhere in `s`.
pub open spec fn contains_sub(s: Seq<char>, pat: Seq<char>) -> bool {
    spec_find_sub(s, pat) is Some
}

pub proof fn lemma_find_char(s: Seq<char>, c: char)
    ensures
        match spec_find_char(s, c) {
            Some(i) => 0 <= i < s.len() && s[i] == c && forall|j: int| 0 <= j < i ==> s[j] != c,
            None => forall|j: int| 0 <= j < s.len() ==> s[j] != c,
        },
    decreases s.len(),
{
    if s.len() > 0 && s[0] != c {
        lemma_find_char(s.drop_first(), c);
        assert(forall|j: int| 1 <= j < s.len() ==> s.drop_first()[j - 1] == #[trigger] s[j]);
    }
}

pub proof fn lemma_rfind_char(s: Seq<char>, c: char)
    ensures
        match spec_rfind_char(s, c) {
            Some(i) => 0 <= i < s.len() && s[i] == c && forall|j: int| i < j < s.len() ==> s[j]
                != c,
            None => forall|j: int| 0 <= j < s.len() ==> s[j] != c,
        },
    decreases s.len(),
{
    if s.len() > 0 && s.last() != c {
        lemma_rfind_char(s.drop_last(), c);
        assert(forall|j: int| 0 <= j < s.len() - 1 ==> s.drop_last()[j] == #[trigger] s[j]);
    }
}

pub proof fn lemma_find_sub(s: Seq<char>, pat: Seq<char>)
    ensures
        match spec_find_sub(s, pat) {
            Some(i) => matches_at(s, pat, i) && forall|j: int| 0 <= j < i ==> !matches_at(
                s,
                pat,
                j,
            ),
            None => forall|j: int| !matches_at(s, pat, j),
        },
    decreases s.len(),
{
    if !matches_at(s, pat, 0) && s.len() > 0 {
        lemma_find_sub(s.drop_first(), pat);
        let t = s.drop_first();
        assert forall|j: int| #[trigger] matches_at(t, pat, j) implies matches_at(
            s,
            pat,
            j + 1,
        ) by {
            assert(t.subrange(j, j + pat.len() as int) =~= s.subrange(
                j + 1,
                j + 1 + pat.len() as int,
            ));
        }
        assert forall|j: int| #[trigger] matches_at(s, pat, j) && j >= 1 implies matches_at(
            t,
            pat,
            j - 1,
        ) by {
            assert(t.subrange(j - 1, j - 1 + pat.len() as int) =~= s.subrange(
                j,
                j + pat.len() as int,
            ));
        }
    }
}

/// Finds the first occurrence of a character.
#[verifier::loop_isolation(false)]
pub fn find_char(v: &Vec<char>, c: char) -> (r: Option<usize>)
    ensures
        match r {
            Some(i) => i < v@.len() && spec_find_char(v@, c) == Some(i as int),
            None => spec_find_char(v@, c) is None,
        },
{
    proof {
        lemma_find_char(v@, c);
    }
    let mut i: usize = 0;
    while i < v.len()
        invariant
            i <= v@.len(),
            forall|j: int| 0 <= j < i ==> v@[j] != c,
        decreases v@.len() - i,
    {
        if v[i] == c {
            return Some(i);
        }
        i = i + 1;
    }
    None
}

/// Finds the last occurrence of a character.
#[verifier::loop_isolation(false)]
pub fn rfind_char(v: &Vec<char>, c: char) -> (r: Option<usize>)
    ensures
        match r {
            Some(i) => i < v@.len() && spec_rfind_char(v@, c) == Some(i as int),
            None => spec_rfind_char(v@, c) is None,
        },
{
    proof {
        lemma_rfind_char(v@, c);
    }
    let mut i: usize = v.len();
    while i > 0
        invariant
            i <= v@.len(),
            forall|j: int| i <= j < v@.len() ==> v@[j] != c,
        decreases i,
    {
        i = i - 1;
        if v[i] == c {
            proof {
                match spec_rfind_char(v@, c) {
                    Some(k) => {
                        if k > i {
                            assert(v@[k] != c);
                        } else if k < i {
                            assert(v@[i as int] != c);
                        }
                    },
                    None => {
                        assert(v@[i as int] != c);
                    },
                }
            }
            return Some(i);
        }
    }
    None
}

/// Finds the first occurrence of the characters of `pat`.
#[verifier::loop_isolation(false)]
pub fn find_sub(v: &Vec<char>, pat: &Vec<char>) -> (r: Option<usize>)
    ensures
        match r {
            Some(i) => i + pat@.len() <= v@.len() && spec_find_sub(v@, pat@) == Some(i as int),
            None => spec_find_sub(v@, pat@) is None,
        },
{
    proof {
        lemma_find_sub(v@, pat@);
    }
    if pat.len() == 0 {
        assert(matches_at(v@, pat@, 0)) by {
            assert(v@.subrange(0, 0) =~= pat@);
        }
        return Some(0);
    }
    if pat.len() > v.len() {
        return None;
    }
    let last = v.len() - pat.len();
    let mut i: usize = 0;
    while i <= last
        invariant
            pat@.len() <= v@.len(),
            last == v@.len() - pat@.len(),
            i <= last + 1,
            forall|j: int| 0 <= j < i ==> !matches_at(v@, pat@, j),
        decreases last + 1 - i,
    {
        let mut k: usize = 0;
        let mut hit = true;
        while k < pat.len()
            invariant
                pat@.len() <= v@.len(),
                i + pat@.len() <= v@.len(),
                k <= pat@.len(),
                hit == (forall|m: int| 0 <= m < k ==> v@[i + m] == pat@[m]),
            decreases pat@.len() - k,
        {
            if v[i + k] != pat[k] {
                hit = false;
                k = pat.len();
            } else {
                k = k + 1;
            }
        }
        if hit {
            assert(v@.subrange(i as int, i + pat@.len() as int) =~= pat@);
            proof {
                match spec_find_sub(v@, pat@) {
                    Some(k) => {
                        if k > i {
                            assert(!matches_at(v@, pat@, i as int));
                        } else if k < i {
                            assert(!matches_at(v@, pat@, k));
                        }
                    },
                    None => {
                        assert(!matches_at(v@, pat@, i as int));
                    },
                }
            }
            return Some(i);
        } else {
            assert(!matches_at(v@, pat@, i as int)) by {
                if matches_at(v@, pat@, i as int) {
                    assert(forall|m: int|
                        0 <= m < pat@.len() ==> #[trigger] v@.subrange(
                            i as int,
                            i + pat@.len() as int,
                        )[m] == v@[i + m]);
                }
            }
        }
        i = i + 1;
    }
    assert forall|j: int| !matches_at(v@, pat@, j) by {
        if matches_at(v@, pat@, j) {
            assert(0 <= j <= v@.len() - pat@.len());
        }
    }
    None
}

/// Whether the characters of `pat` occur anywhere in `v`.
pub fn contains_chars(v: &Vec<char>, pat: &Vec<char>) -> (r: bool)
    ensures
        r == contains_sub(v@, pat@),
{
    match find_sub(v, pat) {
        Some(_) => true,
        None => false,
    }
}

/// A lower-case ASCII letter raised to upper case; any other character
/// is left alone.
pub open spec fn upper_char(c: char) -> char {
    let v = c as int;
    if 97 <= v <= 122 {
        (v - 32) as char
    } else {
        c
    }
}

/// The ASCII upper-casing of a character sequence.
pub open spec fn upper_seq(s: Seq<char>) -> Seq<char> {
    s.map_values(|c: char| upper_char(c))
}

/// Raises every lower-case ASCII letter to upper case.
pub fn to_upper_chars(v: &Vec<char>) -> (r: Vec<char>)
    ensures
        r@ == upper_seq(v@),
{
    let mut r: Vec<char> = Vec::new();
    let mut i: usize = 0;
    while i < v.len()
        invariant
            i <= v@.len(),
            r@.len() == i,
            forall|j: int| 0 <= j < i ==> r@[j] == upper_char(#[trigger] v@[j]),
        decreases v@.len() - i,
    {
        let c = v[i];
        let x = c as u32;
        if 97 <= x && x <= 122 {
            r.push(((x - 32) as u8) as char);
        } else {
            r.push(c);
        }
        i = i + 1;
    }
    assert(r@ =~= upper_seq(v@));
    r
}

/// The exec test matching [`is_ws`].
pub fn is_ws_exec(c: char) -> (r: bool)
    ensures
        r == is_ws(c),
{
    c == ' ' || c == '\t' || c == '\n' || c == '\r'
}

/// The length of the prefix of `s` before its first line-feed.
pub open spec fn nl_len(s: Seq<char>) -> nat
    decreases s.len(),
{
    if s.len() == 0 || s[0] == '\n' {
        0
    } else {
        1 + nl_len(s.drop_first())
    }
}

/// A raw line with a trailing carriage return removed.
pub open spec fn strip_cr(raw: Seq<char>) -> Seq<char> {
    if raw.len() > 0 && raw.last() == '\r' {
        raw.drop_last()
    } else {
        raw
    }
}

proof fn lemma_nl_len_le(s: Seq<char>)
    ensures
        nl_len(s) <= s.len(),
    decreases s.len(),
{
    if !(s.len() == 0 || s[0] == '\n') {
        lemma_nl_len_le(s.drop_first());
    }
}

/// The lines of `s`, split on line feeds, each stripped of a trailing
/// carriage return; a trailing line feed opens no further line.
pub open spec fn spec_lines(s: Seq<char>) -> Seq<Seq<char>>
    decreases s.len(),
    via spec_lines_dec
{
    if s.len() == 0 {
        Seq::empty()
    } else {
        let n = nl_len(s);
        seq![strip_cr(s.take(n as int))] + if n == s.len() {
            Seq::empty()
        } else {
            spec_lines(s.skip(n as int + 1))
        }
    }
}

#[via_fn]
proof fn spec_lines_dec(s: Seq<char>) {
    if s.len() != 0 {
        lemma_nl_len_le(s);
    }
}

proof fn lemma_nl_len_at(s: Seq<char>, n: int)
    requires
        0 <= n <= s.len(),
        forall|k: int| 0 <= k < n ==> #[trigger] s[k] != '\n',
        n == s.len() || s[n] == '\n',
    ensures
        nl_len(s) == n,
    decreases n,
{
    if n > 0 {
        lemma_nl_len_at(s.drop_first(), n - 1);
    }
}

/// Splits into lines.
pub fn split_lines(v: &Vec<char>) -> (r: Vec<Vec<char>>)
    ensures
        toks_view(r@) == spec_lines(v@),
{
    let n = v.len();
    let mut r: Vec<Vec<char>> = Vec::new();
    let mut i: usize = 0;
    proof {
        assert(v@.skip(0) =~= v@);
        assert(toks_view(r@) + spec_lines(v@) =~= spec_lines(v@));
    }
    while i < n
        invariant
            n == v@.len(),
            i <= n,
            spec_lines(v@) == toks_view(r@) + spec_lines(v@.skip(i as int)),
        decreases n - i,
    {
        let start = i;
        let mut j = i;
        while j < n && v[j] != '\n'
            invariant
                n == v@.len(),
                start <= j <= n,
                forall|k: int| start <= k < j ==> #[trigger] v@[k] != '\n',
            decreases n - j,
        {
            j = j + 1;
        }
        proof {
            let suf = v@.skip(start as int);
            assert(forall|k: int|
                0 <= k < j - start ==> #[trigger] suf[k] == v@[k + start] && suf[k] != '\n');
            lemma_nl_len_at(suf, j - start);
            assert(suf.take((j - start) as int) =~= v@.subrange(start as int, j as int));
        }
        let line = if j > start && v[j - 1] == '\r' {
            let l = subvec(v, start, j - 1);
            proof {
                let raw = v@.subrange(start as int, j as int);
                assert(raw.last() == '\r');
                assert(raw.drop_last() =~= v@.subrange(start as int, j - 1));
            }
            l
        } else {
            let l = subvec(v, start, j);
            proof {
                let raw = v@.subrange(start as int, j as int);
                if raw.len() > 0 {
                    assert(raw.last() == v@[j - 1]);
                }
            }
            l
        };
        r.push(line);
        proof {
            let suf = v@.skip(start as int);
            assert(toks_view(r@) =~= toks_view(r@.drop_last()).push(line@));
            if j == n {
                assert(nl_len(suf) == suf.len());
                assert(spec_lines(suf) =~= seq![line@]);
                assert(toks_view(r@.drop_last()) + seq![line@] =~= toks_view(r@)
                    + spec_lines(v@.skip(n as int))) by {
                    assert(v@.skip(n as int) =~= Seq::<char>::empty());
                }
            } else {
                assert(suf.skip(j - start + 1) =~= v@.skip(j + 1));
                assert(spec_lines(suf) =~= seq![line@] + spec_lines(v@.skip(j + 1)));
                assert(toks_view(r@.drop_last()) + (seq![line@] + spec_lines(v@.skip(j + 1)))
                    =~= toks_view(r@) + spec_lines(v@.skip(j + 1)));
            }
        }
        if j == n {
            i = n;
        } else {
            i = j + 1;
        }
    }
    assert(spec_lines(v@.skip(n as int)) =~= Seq::<Seq<char>>::empty()) by {
        assert(v@.skip(n as int) =~= Seq::<char>::empty());
    }
    assert(toks_view(r@) + Seq::<Seq<char>>::empty() =~= toks_view(r@));
    r
}

} // verus!
