//! Small verified string utilities shared across the crate.
//!
//! Everything here speaks about strings as sequences of characters, so
//! positions and lengths count characters, not bytes.

use vstd::prelude::*;
use vstd::string::StrSliceExecFns;
use vstd::string::StringExecFns;

verus! {

/// Character-for-character string equality.
pub fn str_eq_str(a: &str, b: &str) -> (r: bool)
    ensures
        r == (a@ == b@),
{
    let alen = a.unicode_len();
    let blen = b.unicode_len();
    if alen != blen {
        assert(a@ != b@);
        return false;
    }
    let mut i: usize = 0;
    while i < alen
        invariant
            i <= alen,
            alen == a@.len(),
            alen == b@.len(),
            forall|j: int| 0 <= j < i ==> a@[j] == b@[j],
        decreases alen - i,
    {
        if a.get_char(i) != b.get_char(i) {
            assert(a@ != b@);
            return false;
        }
        i = i + 1;
    }
    assert(a@ =~= b@);
    true
}

/// `needle` occurs in `hay` starting at position `i`.
pub open spec fn occurs_at(hay: Seq<char>, needle: Seq<char>, i: int) -> bool {
    &&& 0 <= i
    &&& i + needle.len() <= hay.len()
    &&& hay.subrange(i, i + needle.len() as int) == needle
}

/// The first position at or after `i` where `needle` occurs in `hay`.
pub open spec fn find_spec(hay: Seq<char>, needle: Seq<char>, i: int) -> Option<int>
    decreases hay.len() + 1 - i,
{
    if i < 0 || i + needle.len() > hay.len() {
        None
    } else if occurs_at(hay, needle, i) {
        Some(i)
    } else {
        find_spec(hay, needle, i + 1)
    }
}

/// Find the first occurrence of `needle` in `hay` at or after position
/// `from`.
pub fn str_find(hay: &str, needle: &str, from: usize) -> (r: Option<usize>)
    ensures
        match r {
            Some(k) => from <= k && Some(k as int) == find_spec(hay@, needle@, from as int),
            None => find_spec(hay@, needle@, from as int) is None,
        },
{
    let hlen = hay.unicode_len();
    let nlen = needle.unicode_len();
    if from > hlen {
        return None;
    }
    if nlen == 0 {
        assert(hay@.subrange(from as int, from as int) =~= needle@);
        return Some(from);
    }
    let mut i: usize = from;
    loop
        invariant
            from <= i <= hlen,
            hlen == hay@.len(),
            nlen == needle@.len(),
            nlen >= 1,
            find_spec(hay@, needle@, from as int) == find_spec(hay@, needle@, i as int),
        decreases hlen - i,
    {
        if nlen > hlen - i {
            return None;
        }
        let part = hay.substring_char(i, i + nlen);
        if str_eq_str(part, needle) {
            return Some(i);
        }
        assert(i < hlen);
        i = i + 1;
    }
}

/// What `find_spec` finds: the first occurrence, or no occurrence at
/// or after the start position.
pub proof fn lemma_find_spec_props(hay: Seq<char>, needle: Seq<char>, i: int)
    requires
        0 <= i,
    ensures
        match find_spec(hay, needle, i) {
            Some(k) => i <= k && occurs_at(hay, needle, k) && (forall|j: int|
                i <= j < k ==> !occurs_at(hay, needle, j)),
            None => forall|j: int| i <= j ==> !occurs_at(hay, needle, j),
        },
    decreases hay.len() + 1 - i,
{
    if !(i + needle.len() > hay.len()) && !occurs_at(hay, needle, i) {
        lemma_find_spec_props(hay, needle, i + 1);
    }
}

/// `prefix` starts `s`.
pub open spec fn has_prefix(s: Seq<char>, prefix: Seq<char>) -> bool {
    occurs_at(s, prefix, 0)
}

/// Whether `s` starts with `prefix`.
pub fn str_starts_with(s: &str, prefix: &str) -> (r: bool)
    ensures
        r == has_prefix(s@, prefix@),
{
    let slen = s.unicode_len();
    let plen = prefix.unicode_len();
    if plen > slen {
        return false;
    }
    let part = s.substring_char(0, plen);
    str_eq_str(part, prefix)
}

/// The characters treated as blank by trimming.
pub open spec fn is_space(c: char) -> bool {
    c == ' ' || c == '\t' || c == '\r' || c == '\n'
}

/// The first position at or after `i` holding a non-blank character;
/// the length if there is none.
pub open spec fn skip_space(s: Seq<char>, i: int) -> int
    decreases s.len() - i,
{
    if i < 0 || i >= s.len() {
        s.len() as int
    } else if is_space(s[i]) {
        skip_space(s, i + 1)
    } else {
        i
    }
}

/// The position after the last non-blank character at or before
/// position `i - 1`; zero if there is none.
pub open spec fn rskip_space(s: Seq<char>, i: int) -> int
    decreases i,
{
    if i <= 0 {
        0
    } else if is_space(s[i - 1]) {
        rskip_space(s, i - 1)
    } else {
        i
    }
}

/// The bounds of `s` with blank characters removed from both ends.
pub open spec fn trim_spec(s: Seq<char>) -> (int, int) {
    let lo = skip_space(s, 0);
    if lo == s.len() {
        (lo, lo)
    } else {
        (lo, rskip_space(s, s.len() as int))
    }
}

fn char_is_space(c: char) -> (r: bool)
    ensures
        r == is_space(c),
{
    c == ' ' || c == '\t' || c == '\r' || c == '\n'
}

/// The bounds of `s` with blank characters removed from both ends:
/// `s.substring_char(lo, hi)` is the trimmed string.
pub fn trim_idx(s: &str) -> (r: (usize, usize))
    ensures
        (r.0 as int, r.1 as int) == trim_spec(s@),
        r.0 <= r.1 <= s@.len(),
{
    let len = s.unicode_len();
    let mut lo: usize = 0;
    while lo < len && char_is_space(s.get_char(lo))
        invariant
            0 <= lo <= len,
            len == s@.len(),
            skip_space(s@, 0) == skip_space(s@, lo as int),
        decreases len - lo,
    {
        lo = lo + 1;
    }
    if lo >= len {
        return (len, len);
    }
    let mut hi: usize = len;
    while hi > lo && char_is_space(s.get_char(hi - 1))
        invariant
            lo < hi <= len,
            len == s@.len(),
            lo < len,
            !is_space(s@[lo as int]),
            rskip_space(s@, len as int) == rskip_space(s@, hi as int),
        decreases hi,
    {
        hi = hi - 1;
    }
    assert(rskip_space(s@, hi as int) == hi as int);
    (lo, hi)
}

/// The numeric value of a decimal digit character; 10 marks a
/// non-digit.
pub open spec fn dec_digit(c: char) -> int {
    if c == '0' {
        0
    } else if c == '1' {
        1
    } else if c == '2' {
        2
    } else if c == '3' {
        3
    } else if c == '4' {
        4
    } else if c == '5' {
        5
    } else if c == '6' {
        6
    } else if c == '7' {
        7
    } else if c == '8' {
        8
    } else if c == '9' {
        9
    } else {
        10
    }
}

/// Every character of `s` is a decimal digit.
pub open spec fn all_dec_digits(s: Seq<char>) -> bool {
    forall|i: int| 0 <= i < s.len() ==> dec_digit(s[i]) < 10
}

/// The value of `s` read as a decimal numeral.
pub open spec fn dec_value(s: Seq<char>) -> int
    decreases s.len(),
{
    if s.len() == 0 {
        0
    } else {
        dec_value(s.drop_last()) * 10 + dec_digit(s.last())
    }
}

/// A longer digit string never has a smaller value.
proof fn lemma_dec_value_monotone(s: Seq<char>, i: int)
    requires
        0 <= i <= s.len(),
        all_dec_digits(s),
    ensures
        dec_value(s.take(i)) <= dec_value(s),
        dec_value(s) >= 0,
    decreases s.len() - i,
{
    if i == s.len() {
        assert(s.take(i) =~= s);
        lemma_dec_value_nonneg(s);
    } else {
        lemma_dec_value_monotone(s, i + 1);
        lemma_dec_value_nonneg(s.take(i));
        assert(s.take(i + 1).drop_last() =~= s.take(i));
        assert(dec_value(s.take(i + 1)) == dec_value(s.take(i)) * 10 + dec_digit(s[i]));
    }
}

proof fn lemma_dec_value_nonneg(s: Seq<char>)
    ensures
        all_dec_digits(s) ==> dec_value(s) >= 0,
    decreases s.len(),
{
    if s.len() > 0 {
        lemma_dec_value_nonneg(s.drop_last());
        assert(all_dec_digits(s) ==> all_dec_digits(s.drop_last()));
    }
}

fn dec_digit_of(c: char) -> (d: usize)
    ensures
        d == dec_digit(c),
{
    if c == '0' {
        0
    } else if c == '1' {
        1
    } else if c == '2' {
        2
    } else if c == '3' {
        3
    } else if c == '4' {
        4
    } else if c == '5' {
        5
    } else if c == '6' {
        6
    } else if c == '7' {
        7
    } else if c == '8' {
        8
    } else if c == '9' {
        9
    } else {
        10
    }
}

/// Parse `s` as a decimal numeral: the value when `s` is non-empty,
/// all digits, and the value fits the machine word; nothing otherwise.
pub fn parse_decimal(s: &str) -> (r: Option<usize>)
    ensures
        match r {
            Some(v) => s@.len() > 0 && all_dec_digits(s@) && v == dec_value(s@),
            None => s@.len() == 0 || !all_dec_digits(s@) || dec_value(s@) > usize::MAX,
        },
{
    let len = s.unicode_len();
    if len == 0 {
        return None;
    }
    let mut value: usize = 0;
    let mut i: usize = 0;
    while i < len
        invariant
            0 <= i <= len,
            len == s@.len(),
            forall|j: int| 0 <= j < i ==> dec_digit(s@[j]) < 10,
            value == dec_value(s@.take(i as int)),
        decreases len - i,
    {
        let c = s.get_char(i);
        let d = dec_digit_of(c);
        if d >= 10 {
            return None;
        }
        assert(s@.take(i + 1).drop_last() =~= s@.take(i as int));
        if value > (usize::MAX - d) / 10 {
            proof {
                assert(dec_value(s@.take(i + 1)) == value * 10 + d);
                assert(value * 10 + d > usize::MAX) by (nonlinear_arith)
                    requires
                        value > (usize::MAX - d) / 10,
                        d < 10,
                ;
                if all_dec_digits(s@) {
                    lemma_dec_value_monotone(s@, i + 1);
                }
            }
            return None;
        }
        value = value * 10 + d;
        i = i + 1;
    }
    assert(s@.take(len as int) =~= s@);
    Some(value)
}

/// The numeric value of a lowercase or uppercase hexadecimal digit
/// character; 16 marks a non-digit.
pub open spec fn hex_digit(c: char) -> int {
    if dec_digit(c) < 10 {
        dec_digit(c)
    } else if c == 'a' || c == 'A' {
        10
    } else if c == 'b' || c == 'B' {
        11
    } else if c == 'c' || c == 'C' {
        12
    } else if c == 'd' || c == 'D' {
        13
    } else if c == 'e' || c == 'E' {
        14
    } else if c == 'f' || c == 'F' {
        15
    } else {
        16
    }
}

/// Every character of `s` is a hexadecimal digit.
pub open spec fn all_hex_digits(s: Seq<char>) -> bool {
    forall|i: int| 0 <= i < s.len() ==> hex_digit(s[i]) < 16
}

/// The value of `s` read as a hexadecimal numeral.
pub open spec fn hex_value(s: Seq<char>) -> int
    decreases s.len(),
{
    if s.len() == 0 {
        0
    } else {
        hex_value(s.drop_last()) * 16 + hex_digit(s.last())
    }
}

proof fn lemma_hex_value_nonneg(s: Seq<char>)
    ensures
        all_hex_digits(s) ==> hex_value(s) >= 0,
    decreases s.len(),
{
    if s.len() > 0 {
        lemma_hex_value_nonneg(s.drop_last());
        assert(all_hex_digits(s) ==> all_hex_digits(s.drop_last()));
    }
}

/// A longer hexadecimal digit string never has a smaller value.
proof fn lemma_hex_value_monotone(s: Seq<char>, i: int)
    requires
        0 <= i <= s.len(),
        all_hex_digits(s),
    ensures
        hex_value(s.take(i)) <= hex_value(s),
        hex_value(s) >= 0,
    decreases s.len() - i,
{
    if i == s.len() {
        assert(s.take(i) =~= s);
        lemma_hex_value_nonneg(s);
    } else {
        lemma_hex_value_monotone(s, i + 1);
        lemma_hex_value_nonneg(s.take(i));
        assert(s.take(i + 1).drop_last() =~= s.take(i));
        assert(hex_value(s.take(i + 1)) == hex_value(s.take(i)) * 16 + hex_digit(s[i]));
    }
}

/// The numeric value of a hexadecimal digit character; 16 for a
/// non-digit.
pub fn hex_digit_of(c: char) -> (d: usize)
    ensures
        d == hex_digit(c),
{
    let dec = dec_digit_of(c);
    if dec < 10 {
        dec
    } else if c == 'a' || c == 'A' {
        10
    } else if c == 'b' || c == 'B' {
        11
    } else if c == 'c' || c == 'C' {
        12
    } else if c == 'd' || c == 'D' {
        13
    } else if c == 'e' || c == 'E' {
        14
    } else if c == 'f' || c == 'F' {
        15
    } else {
        16
    }
}

/// Parse `s` as a hexadecimal numeral: the value when `s` is non-empty,
/// all hexadecimal digits, and the value fits the machine word; nothing
/// otherwise.
pub fn parse_hexadecimal(s: &str) -> (r: Option<usize>)
    ensures
        match r {
            Some(v) => s@.len() > 0 && all_hex_digits(s@) && v == hex_value(s@),
            None => s@.len() == 0 || !all_hex_digits(s@) || hex_value(s@) > usize::MAX,
        },
{
    let len = s.unicode_len();
    if len == 0 {
        return None;
    }
    let mut value: usize = 0;
    let mut i: usize = 0;
    while i < len
        invariant
            0 <= i <= len,
            len == s@.len(),
            forall|j: int| 0 <= j < i ==> hex_digit(s@[j]) < 16,
            value == hex_value(s@.take(i as int)),
        decreases len - i,
    {
        let c = s.get_char(i);
        let d = hex_digit_of(c);
        if d >= 16 {
            return None;
        }
        assert(s@.take(i + 1).drop_last() =~= s@.take(i as int));
        if value > (usize::MAX - d) / 16 {
            proof {
                assert(hex_value(s@.take(i + 1)) == value * 16 + d);
                assert(value * 16 + d > usize::MAX) by (nonlinear_arith)
                    requires
                        value > (usize::MAX - d) / 16,
                        d < 16,
                ;
                if all_hex_digits(s@) {
                    lemma_hex_value_monotone(s@, i + 1);
                }
            }
            return None;
        }
        value = value * 16 + d;
        i = i + 1;
    }
    assert(s@.take(len as int) =~= s@);
    Some(value)
}

/// The lowercase digit character for a value below 16.
pub open spec fn hex_char(d: int) -> char {
    if d == 0 {
        '0'
    } else if d == 1 {
        '1'
    } else if d == 2 {
        '2'
    } else if d == 3 {
        '3'
    } else if d == 4 {
        '4'
    } else if d == 5 {
        '5'
    } else if d == 6 {
        '6'
    } else if d == 7 {
        '7'
    } else if d == 8 {
        '8'
    } else if d == 9 {
        '9'
    } else if d == 10 {
        'a'
    } else if d == 11 {
        'b'
    } else if d == 12 {
        'c'
    } else if d == 13 {
        'd'
    } else if d == 14 {
        'e'
    } else {
        'f'
    }
}

/// The shortest lowercase hexadecimal numeral for `n`.
pub open spec fn hex_digits_of(n: int) -> Seq<char>
    decreases n,
{
    if n < 16 {
        seq![hex_char(n)]
    } else {
        hex_digits_of(n / 16).push(hex_char(n % 16))
    }
}

fn hex_char_str(d: usize) -> (r: &'static str)
    requires
        d < 16,
    ensures
        r@ =~= seq![hex_char(d as int)],
{
    if d == 0 {
        let s = "0";
        proof {
            reveal_strlit("0");
        }
        s
    } else if d == 1 {
        let s = "1";
        proof {
            reveal_strlit("1");
        }
        s
    } else if d == 2 {
        let s = "2";
        proof {
            reveal_strlit("2");
        }
        s
    } else if d == 3 {
        let s = "3";
        proof {
            reveal_strlit("3");
        }
        s
    } else if d == 4 {
        let s = "4";
        proof {
            reveal_strlit("4");
        }
        s
    } else if d == 5 {
        let s = "5";
        proof {
            reveal_strlit("5");
        }
        s
    } else if d == 6 {
        let s = "6";
        proof {
            reveal_strlit("6");
        }
        s
    } else if d == 7 {
        let s = "7";
        proof {
            reveal_strlit("7");
        }
        s
    } else if d == 8 {
        let s = "8";
        proof {
            reveal_strlit("8");
        }
        s
    } else if d == 9 {
        let s = "9";
        proof {
            reveal_strlit("9");
        }
        s
    } else if d == 10 {
        let s = "a";
        proof {
            reveal_strlit("a");
        }
        s
    } else if d == 11 {
        let s = "b";
        proof {
            reveal_strlit("b");
        }
        s
    } else if d == 12 {
        let s = "c";
        proof {
            reveal_strlit("c");
        }
        s
    } else if d == 13 {
        let s = "d";
        proof {
            reveal_strlit("d");
        }
        s
    } else if d == 14 {
        let s = "e";
        proof {
            reveal_strlit("e");
        }
        s
    } else {
        let s = "f";
        proof {
            reveal_strlit("f");
        }
        s
    }
}

fn push_hex_digits(n: usize, out: &mut String)
    ensures
        final(out)@ == old(out)@ + hex_digits_of(n as int),
    decreases n,
{
    if n < 16 {
        out.append(hex_char_str(n));
    } else {
        push_hex_digits(n / 16, out);
        out.append(hex_char_str(n % 16));
        assert(old(out)@ + hex_digits_of(n as int / 16) + seq![hex_char(n as int % 16)] =~= old(
            out,
        )@ + hex_digits_of(n as int));
    }
}

/// Format `n` as a lowercase hexadecimal numeral with a `0x` prefix.
pub fn hex_string(n: usize) -> (r: String)
    ensures
        r@ == seq!['0', 'x'] + hex_digits_of(n as int),
{
    let mut out = String::from_str("0x");
    proof {
        reveal_strlit("0x");
        assert(out@ =~= seq!['0', 'x']);
    }
    push_hex_digits(n, &mut out);
    out
}


/// The digit character for a value below 10.
pub open spec fn dec_char(d: int) -> char {
    hex_char(if 0 <= d < 10 {
        d
    } else {
        0
    })
}

/// The shortest decimal numeral for `n`.
pub open spec fn dec_digits_of(n: int) -> Seq<char>
    decreases n,
{
    if n < 10 {
        seq![dec_char(n)]
    } else {
        dec_digits_of(n / 10).push(dec_char(n % 10))
    }
}

fn push_dec_digits(n: usize, out: &mut String)
    ensures
        final(out)@ == old(out)@ + dec_digits_of(n as int),
    decreases n,
{
    if n < 10 {
        out.append(hex_char_str(n));
    } else {
        push_dec_digits(n / 10, out);
        out.append(hex_char_str(n % 10));
        assert(old(out)@ + dec_digits_of(n as int / 10) + seq![dec_char(n as int % 10)] =~= old(
            out,
        )@ + dec_digits_of(n as int));
    }
}

/// Format `n` as a decimal numeral.
pub fn dec_string(n: usize) -> (r: String)
    ensures
        r@ == dec_digits_of(n as int),
{
    let mut out = String::new();
    push_dec_digits(n, &mut out);
    assert(out@ =~= dec_digits_of(n as int));
    out
}

/// Replace the first occurrence of `pat` in `s` with `rep`; `s` itself
/// when `pat` does not occur.
pub fn replace_first(s: &str, pat: &str, rep: &str) -> (r: String)
    ensures
        match find_spec(s@, pat@, 0) {
            Some(k) => r@ == s@.take(k) + rep@ + s@.skip(k + pat@.len()),
            None => r@ == s@,
        },
{
    let slen = s.unicode_len();
    let plen = pat.unicode_len();
    match str_find(s, pat, 0) {
        None => s.to_owned(),
        Some(k) => {
            proof {
                lemma_find_spec_props(s@, pat@, 0);
            }
            let mut out = s.substring_char(0, k).to_owned();
            out.append(rep);
            out.append(s.substring_char(k + plen, slen));
            proof {
                assert(s@.subrange(0, k as int) =~= s@.take(k as int));
                assert(s@.subrange(k + plen, slen as int) =~= s@.skip(k + plen));
            }
            out
        },
    }
}


/// The segments of `s` split on `c`, starting at position `i`.
pub open spec fn split_from(s: Seq<char>, c: char, i: int) -> Seq<Seq<char>>
    decreases s.len() + 1 - i,
{
    if i < 0 {
        Seq::empty()
    } else {
        match find_spec(s, seq![c], i) {
            Some(k) => if i <= k < s.len() {
                seq![s.subrange(i, k)] + split_from(s, c, k + 1)
            } else {
                seq![s.subrange(i, s.len() as int)]
            },
            None => seq![s.subrange(i, s.len() as int)],
        }
    }
}

/// The segments of `s` split on `c`: one more segment than there are
/// separators, empty segments kept.
pub open spec fn split_at_char(s: Seq<char>, c: char) -> Seq<Seq<char>> {
    split_from(s, c, 0)
}

/// Split `s` on the separator `sep`, a one-character string.
pub fn split_char(s: &str, sep: &str) -> (parts: Vec<String>)
    requires
        sep@.len() == 1,
    ensures
        parts@.map_values(|p: String| p@) == split_at_char(s@, sep@[0]),
{
    let slen = s.unicode_len();
    let mut parts: Vec<String> = Vec::new();
    let mut pos: usize = 0;
    loop
        invariant
            pos <= slen,
            slen == s@.len(),
            sep@.len() == 1,
            parts@.map_values(|p: String| p@) + split_from(s@, sep@[0], pos as int)
                =~= split_at_char(s@, sep@[0]),
        decreases slen - pos,
    {
        proof {
            lemma_find_spec_props(s@, sep@, pos as int);
            assert(sep@ =~= seq![sep@[0]]);
        }
        match str_find(s, sep, pos) {
            None => {
                parts.push(s.substring_char(pos, slen).to_owned());
                proof {
                    assert(parts@.map_values(|p: String| p@) =~= parts@.drop_last().map_values(
                        |p: String| p@,
                    ).push(s@.subrange(pos as int, slen as int)));
                }
                return parts;
            },
            Some(k) => {
                if k >= slen {
                    parts.push(s.substring_char(pos, slen).to_owned());
                    proof {
                        assert(parts@.map_values(|p: String| p@) =~= parts@.drop_last().map_values(
                            |p: String| p@,
                        ).push(s@.subrange(pos as int, slen as int)));
                    }
                    return parts;
                }
                parts.push(s.substring_char(pos, k).to_owned());
                proof {
                    assert(parts@.map_values(|p: String| p@) =~= parts@.drop_last().map_values(
                        |p: String| p@,
                    ).push(s@.subrange(pos as int, k as int)));
                }
                pos = k + 1;
            },
        }
    }
}


/// How many decimal-digit characters `s` holds, anywhere in the
/// string.
pub open spec fn dec_digit_count(s: Seq<char>) -> int
    decreases s.len(),
{
    if s.len() == 0 {
        0
    } else {
        dec_digit_count(s.drop_last()) + if dec_digit(s.last()) < 10 {
            1int
        } else {
            0int
        }
    }
}

/// Count the decimal-digit characters of `s`.
pub fn count_dec_digits(s: &str) -> (n: usize)
    ensures
        n == dec_digit_count(s@),
{
    let len = s.unicode_len();
    let mut n: usize = 0;
    let mut i: usize = 0;
    while i < len
        invariant
            i <= len,
            len == s@.len(),
            n <= i,
            n == dec_digit_count(s@.take(i as int)),
        decreases len - i,
    {
        let c = s.get_char(i);
        assert(s@.take(i + 1).drop_last() =~= s@.take(i as int));
        if dec_digit_of(c) < 10 {
            n = n + 1;
        }
        i = i + 1;
    }
    assert(s@.take(len as int) =~= s@);
    n
}

} // verus!
