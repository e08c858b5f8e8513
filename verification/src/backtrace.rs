//! Parsing helpers for symbolizing raw backtrace output.
//!
//! Running the symbolizer binary and probing the search path are I/O
//! and live outside the verified library; what is here is the pure
//! reading of backtrace lines and addresses.

use crate::strings::{
    all_dec_digits, all_hex_digits, dec_value, has_prefix, hex_digit, hex_value, find_spec,
    parse_decimal, parse_hexadecimal, str_find, str_starts_with, trim_idx, trim_spec,
};
use vstd::prelude::*;
use vstd::string::StrSliceExecFns;
use vstd::string::StringExecFns;

verus! {

/// The marker an unresolved backtrace frame line carries.
pub open spec fn unknown_marker() -> Seq<char> {
    seq![' ', '-', ' ', '<', 'u', 'n', 'k', 'n', 'o', 'w', 'n', '>']
}

/// The end of the run of hexadecimal digits starting at `i`.
pub open spec fn hex_run_end(s: Seq<char>, i: int) -> int
    decreases s.len() - i,
{
    if i < 0 || i >= s.len() {
        s.len() as int
    } else if hex_digit(s[i]) < 16 {
        hex_run_end(s, i + 1)
    } else {
        i
    }
}

/// What an unresolved backtrace frame line carries: the frame number
/// and the address digits after `0x`.
///
/// A line yields a pair exactly when it carries the unresolved marker,
/// a colon with a decimal frame number (possibly blank-padded) before
/// it, and a `0x` followed by at least one hexadecimal digit.
pub open spec fn unknown_frame_spec(line: Seq<char>) -> Option<(int, Seq<char>)> {
    if find_spec(line, unknown_marker(), 0) is None {
        None
    } else {
        match find_spec(line, seq![':'], 0) {
            None => None,
            Some(k) => {
                let left = line.take(k);
                let bounds = trim_spec(left);
                let numstr = left.subrange(bounds.0, bounds.1);
                if numstr.len() == 0 || !all_dec_digits(numstr) {
                    None
                } else {
                    match find_spec(line, seq!['0', 'x'], 0) {
                        None => None,
                        Some(h) => {
                            let after = line.skip(h + 2);
                            let m = hex_run_end(after, 0);
                            if m == 0 {
                                None
                            } else {
                                Some((dec_value(numstr), after.take(m)))
                            }
                        },
                    }
                }
            },
        }
    }
}

/// Parse an unresolved backtrace frame line such as
/// `  19:         0x80019fa2 - <unknown>` into the frame number and
/// the address digits without their `0x`.
pub fn parse_backtrace_unknown_frame(line: &str) -> (r: Option<(usize, String)>)
    ensures
        match r {
            Some(p) => (match unknown_frame_spec(line@) {
                Some(q) => q.0 == p.0 && q.1 == p.1@,
                None => false,
            }),
            None => (match unknown_frame_spec(line@) {
                Some(q) => q.0 > usize::MAX,
                None => true,
            }),
        },
{
    let marker = " - <unknown>";
    let colon = ":";
    let hex_prefix = "0x";
    proof {
        reveal_strlit(" - <unknown>");
        reveal_strlit(":");
        reveal_strlit("0x");
        assert(marker@ =~= unknown_marker());
        assert(colon@ =~= seq![':']);
        assert(hex_prefix@ =~= seq!['0', 'x']);
    }
    let len = line.unicode_len();

    if str_find(line, marker, 0).is_none() {
        return None;
    }
    let k = match str_find(line, colon, 0) {
        None => {
            return None;
        },
        Some(k) => k,
    };
    proof {
        crate::strings::lemma_find_spec_props(line@, colon@, 0);
    }
    let left = line.substring_char(0, k);
    proof {
        assert(left@ =~= line@.take(k as int));
    }
    let (nlo, nhi) = trim_idx(left);
    let numstr = left.substring_char(nlo, nhi);
    let frame_no = match parse_decimal(numstr) {
        None => {
            return None;
        },
        Some(v) => v,
    };
    let h = match str_find(line, hex_prefix, 0) {
        None => {
            return None;
        },
        Some(h) => h,
    };
    proof {
        crate::strings::lemma_find_spec_props(line@, hex_prefix@, 0);
    }
    let after_start = h + 2;
    let ghost after = line@.skip(after_start as int);
    let mut m: usize = after_start;
    while m < len && hex_digit_at(line, m)
        invariant
            after_start <= m <= len,
            len == line@.len(),
            after_start <= len,
            after == line@.skip(after_start as int),
            hex_run_end(after, 0) == hex_run_end(after, (m - after_start) as int),
        decreases len - m,
    {
        proof {
            assert(after[(m - after_start) as int] == line@[m as int]);
        }
        m = m + 1;
    }
    proof {
        if m < len {
            assert(after[(m - after_start) as int] == line@[m as int]);
        }
        assert(hex_run_end(after, (m - after_start) as int) == m - after_start);
    }
    if m == after_start {
        return None;
    }
    let hex = line.substring_char(after_start, m);
    proof {
        assert(hex@ =~= after.take((m - after_start) as int));
    }
    Some((frame_no, hex.to_owned()))
}

fn hex_digit_at(s: &str, i: usize) -> (r: bool)
    requires
        i < s@.len(),
    ensures
        r == (hex_digit(s@[i as int]) < 16),
{
    let c = s.get_char(i);
    let d = crate::strings::hex_digit_of(c);
    d < 16
}

/// The digits a numeral holds once an optional leading plus sign is
/// dropped.
pub open spec fn unsigned_body(s: Seq<char>) -> Seq<char> {
    if s.len() > 0 && s[0] == '+' {
        s.skip(1)
    } else {
        s
    }
}

/// Parse a hexadecimal numeral (no `0x` prefix), with an optional
/// leading plus sign; an unreadable or oversized numeral reads as
/// zero, never as an error.
pub fn parse_hex(s: &str) -> (r: usize)
    ensures
        ({
            let b = unsigned_body(s@);
            r == (if b.len() > 0 && all_hex_digits(b) && hex_value(b) <= usize::MAX {
                hex_value(b)
            } else {
                0
            })
        }),
{
    let plus = "+";
    proof {
        reveal_strlit("+");
    }
    let body: &str = if str_starts_with(s, plus) {
        let len = s.unicode_len();
        proof {
            assert(plus@ =~= seq!['+']);
            assert(s@.subrange(0, 1)[0] == s@[0]);
            assert(s@[0] == '+');
        }
        let b = s.substring_char(1, len);
        proof {
            assert(b@ =~= s@.skip(1));
        }
        b
    } else {
        proof {
            assert(plus@ =~= seq!['+']);
            if s@.len() > 0 && s@[0] == '+' {
                assert(s@.subrange(0, 1) =~= plus@);
                assert(has_prefix(s@, plus@));
                assert(false);
            }
        }
        s
    };
    match parse_hexadecimal(body) {
        Some(v) => v,
        None => 0,
    }
}


/// What a captured symbolizer output line cleans up to.
///
/// The line is trimmed; an address prefix up to the first `": "` is
/// dropped; the rest splits at the first `" at "` into a symbol name
/// (trimmed) and a location. A blank or `??` name yields nothing; an
/// unknown location (`??:0`, `??:?`, or none) keeps the bare name;
/// otherwise name and location are joined back with `" at "`.
pub open spec fn symbolized_line_spec(raw: Seq<char>) -> Option<Seq<char>> {
    let tb = trim_spec(raw);
    let s = raw.subrange(tb.0, tb.1);
    if s.len() == 0 {
        None
    } else {
        let rest = match find_spec(s, seq![':', ' '], 0) {
            Some(k) => s.skip(k + 2),
            None => s,
        };
        let split = match find_spec(rest, seq![' ', 'a', 't', ' '], 0) {
            Some(k) => (rest.take(k), rest.skip(k + 4)),
            None => (rest, Seq::<char>::empty()),
        };
        let fb = trim_spec(split.0);
        let func = split.0.subrange(fb.0, fb.1);
        let loc = split.1;
        if func.len() == 0 || func == seq!['?', '?'] {
            None
        } else if loc.len() == 0 || find_spec(loc, seq!['?', '?', ':', '0'], 0) is Some
            || find_spec(loc, seq!['?', '?', ':', '?'], 0) is Some {
            Some(func)
        } else {
            Some(func + seq![' ', 'a', 't', ' '] + loc)
        }
    }
}

/// Clean one captured symbolizer output line into `name` or
/// `name at file:line`, dropping address prefixes and unknown
/// locations; a blank or unresolved name yields nothing.
pub fn clean_symbolized_line(raw: &str) -> (r: Option<String>)
    ensures
        match r {
            Some(v) => symbolized_line_spec(raw@) == Some(v@),
            None => symbolized_line_spec(raw@) is None,
        },
{
    let colon_space = ": ";
    let at_sep = " at ";
    let unknown_name = "??";
    let unknown_loc0 = "??:0";
    let unknown_locq = "??:?";
    proof {
        reveal_strlit(": ");
        reveal_strlit(" at ");
        reveal_strlit("??");
        reveal_strlit("??:0");
        reveal_strlit("??:?");
        assert(colon_space@ =~= seq![':', ' ']);
        assert(at_sep@ =~= seq![' ', 'a', 't', ' ']);
        assert(unknown_name@ =~= seq!['?', '?']);
        assert(unknown_loc0@ =~= seq!['?', '?', ':', '0']);
        assert(unknown_locq@ =~= seq!['?', '?', ':', '?']);
    }

    let (tlo, thi) = trim_idx(raw);
    let s = raw.substring_char(tlo, thi);
    proof {
        assert(s@ =~= raw@.subrange(tlo as int, thi as int));
    }
    let slen = s.unicode_len();
    if slen == 0 {
        return None;
    }

    let rest = match str_find(s, colon_space, 0) {
        Some(k) => {
            proof {
                crate::strings::lemma_find_spec_props(s@, colon_space@, 0);
            }
            let part = s.substring_char(k + 2, slen);
            proof {
                assert(part@ =~= s@.skip(k + 2));
            }
            part
        },
        None => s,
    };
    let rlen = rest.unicode_len();

    let (func0, loc) = match str_find(rest, at_sep, 0) {
        Some(k) => {
            proof {
                crate::strings::lemma_find_spec_props(rest@, at_sep@, 0);
            }
            let f = rest.substring_char(0, k);
            let l = rest.substring_char(k + 4, rlen);
            proof {
                assert(f@ =~= rest@.take(k as int));
                assert(l@ =~= rest@.skip(k + 4));
            }
            (f, l)
        },
        None => {
            let l = rest.substring_char(rlen, rlen);
            proof {
                assert(l@ =~= Seq::<char>::empty());
            }
            (rest, l)
        },
    };

    let (flo, fhi) = trim_idx(func0);
    let func = func0.substring_char(flo, fhi);
    proof {
        assert(func@ =~= func0@.subrange(flo as int, fhi as int));
    }

    if func.unicode_len() == 0 || crate::strings::str_eq_str(func, unknown_name) {
        return None;
    }
    if loc.unicode_len() == 0 || str_find(loc, unknown_loc0, 0).is_some() || str_find(
        loc,
        unknown_locq,
        0,
    ).is_some() {
        return Some(func.to_owned());
    }
    let joined = func.to_owned().concat(at_sep).concat(loc);
    Some(joined)
}

} // verus!
