//! Base-16 text: digit classification and parsing of the identity files'
//! contents (a hex string with optional `0x` prefix) into a 16-bit value.

use vstd::prelude::*;

use crate::error::Error;

verus! {

/// Whether `c` is a hexadecimal digit: `0`-`9`, `a`-`f` or `A`-`F`.
pub open spec fn spec_is_hex_digit(c: char) -> bool {
    let n = c as int;
    (0x30 <= n && n <= 0x39) || (0x61 <= n && n <= 0x66) || (0x41 <= n && n <= 0x46)
}

/// The value of the hexadecimal digit `c`; meaningful only when
/// `spec_is_hex_digit(c)` holds.
pub open spec fn spec_hex_digit_value(c: char) -> int {
    let n = c as int;
    if 0x30 <= n && n <= 0x39 {
        n - 0x30
    } else if 0x61 <= n && n <= 0x66 {
        n - 0x61 + 10
    } else {
        n - 0x41 + 10
    }
}

pub fn is_hex_digit(c: char) -> (r: bool)
    ensures
        r == spec_is_hex_digit(c),
{
    let n = c as u32;
    (0x30 <= n && n <= 0x39) || (0x61 <= n && n <= 0x66) || (0x41 <= n && n <= 0x46)
}

/// The value of the hexadecimal digit byte `b`, or `None` when `b` is no
/// such digit.
pub fn hex_value(b: u8) -> (r: Option<u8>)
    ensures
        r is Some <==> spec_is_hex_digit(b as char),
        r matches Some(v) ==> v == spec_hex_digit_value(b as char) && v < 16,
{
    if 0x30 <= b && b <= 0x39 {
        Some(b - 0x30)
    } else if 0x61 <= b && b <= 0x66 {
        Some(b - 0x61 + 10)
    } else if 0x41 <= b && b <= 0x46 {
        Some(b - 0x41 + 10)
    } else {
        None
    }
}

/// Whether `b` is a whitespace byte as `str::trim` understands it.
pub open spec fn spec_is_space(b: u8) -> bool {
    b == 0x20 || (0x09 <= b && b <= 0x0d)
}

fn is_space(b: u8) -> (r: bool)
    ensures
        r == spec_is_space(b),
{
    b == 0x20 || (0x09 <= b && b <= 0x0d)
}

/// `s` with its leading whitespace bytes removed.
pub open spec fn spec_trim_front(s: Seq<u8>) -> Seq<u8>
    decreases s.len(),
{
    if s.len() > 0 && spec_is_space(s[0]) {
        spec_trim_front(s.drop_first())
    } else {
        s
    }
}

/// `s` with its trailing whitespace bytes removed.
pub open spec fn spec_trim_back(s: Seq<u8>) -> Seq<u8>
    decreases s.len(),
{
    if s.len() > 0 && spec_is_space(s.last()) {
        spec_trim_back(s.drop_last())
    } else {
        s
    }
}

/// `s` with whitespace removed from both ends.
pub open spec fn spec_trim(s: Seq<u8>) -> Seq<u8> {
    spec_trim_back(spec_trim_front(s))
}

/// `s` with one leading `0x` removed, if it has one.
pub open spec fn spec_strip_0x(s: Seq<u8>) -> Seq<u8> {
    if s.len() >= 2 && s[0] == 0x30 && s[1] == 0x78 {
        s.skip(2)
    } else {
        s
    }
}

/// Whether every byte of `s` is a hexadecimal digit.
pub open spec fn all_hex(s: Seq<u8>) -> bool {
    forall|i: int| 0 <= i < s.len() ==> spec_is_hex_digit(#[trigger] s[i] as char)
}

/// The value of the hexadecimal digit string `s`, most significant digit
/// first; meaningful only when `all_hex(s)` holds.
pub open spec fn hex_seq_value(s: Seq<u8>) -> int
    decreases s.len(),
{
    if s.len() == 0 {
        0
    } else {
        hex_seq_value(s.drop_last()) * 16 + spec_hex_digit_value(s.last() as char)
    }
}

/// What `parse_hex_u16` accepts: after trimming whitespace and stripping an
/// optional `0x` prefix, a nonempty string of hexadecimal digits whose value
/// fits in 16 bits.
pub open spec fn spec_parse_hex_u16(s: Seq<u8>) -> Option<u16> {
    let d = spec_strip_0x(spec_trim(s));
    if d.len() > 0 && all_hex(d) && hex_seq_value(d) <= 0xffff {
        Some(hex_seq_value(d) as u16)
    } else {
        None
    }
}

proof fn lemma_hex_seq_value_nonneg(s: Seq<u8>)
    requires
        all_hex(s),
    ensures
        hex_seq_value(s) >= 0,
    decreases s.len(),
{
    if s.len() > 0 {
        assert(all_hex(s.drop_last())) by {
            assert(forall|i: int|
                0 <= i < s.len() - 1 ==> s.drop_last()[i] == #[trigger] s[i]);
        }
        lemma_hex_seq_value_nonneg(s.drop_last());
    }
}

/// Appending digits never shrinks the value: the value of a prefix bounds
/// the value of the whole string from below.
proof fn lemma_hex_seq_value_prefix(s: Seq<u8>, k: int)
    requires
        all_hex(s),
        0 <= k <= s.len(),
    ensures
        hex_seq_value(s) >= hex_seq_value(s.take(k)),
    decreases s.len(),
{
    if k == s.len() {
        assert(s.take(k) =~= s);
    } else {
        assert(all_hex(s.drop_last())) by {
            assert(forall|i: int|
                0 <= i < s.len() - 1 ==> s.drop_last()[i] == #[trigger] s[i]);
        }
        assert(s.drop_last().take(k) =~= s.take(k));
        lemma_hex_seq_value_prefix(s.drop_last(), k);
        lemma_hex_seq_value_nonneg(s.drop_last());
        assert(spec_hex_digit_value(s.last() as char) >= 0);
    }
}

/// Parses `s` as the identity files hold it: whitespace is trimmed from
/// both ends, one optional `0x` prefix is stripped, and the rest must be a
/// nonempty, case-insensitive hexadecimal numeral whose value fits in 16
/// bits. Anything else is a parse error.
pub fn parse_hex_u16(s: &Vec<u8>) -> (r: Result<u16, Error>)
    ensures
        (spec_parse_hex_u16(s@) matches Some(v) ==> r == Ok::<u16, Error>(v)),
        (spec_parse_hex_u16(s@) is None ==> r == Err::<u16, Error>(Error::Parse)),
{
    let n = s.len();
    let mut start: usize = 0;
    proof {
        assert(s@.skip(0) =~= s@);
    }
    while start < n && is_space(s[start])
        invariant
            0 <= start <= n,
            n == s@.len(),
            spec_trim_front(s@) == spec_trim_front(s@.skip(start as int)),
        decreases n - start,
    {
        proof {
            let t = s@.skip(start as int);
            assert(t[0] == s@[start as int]);
            assert(t.drop_first() =~= s@.skip(start as int + 1));
        }
        start = start + 1;
    }
    proof {
        assert(s@.skip(0) =~= s@);
        let t = s@.skip(start as int);
        if start < n {
            assert(t[0] == s@[start as int]);
        }
        assert(spec_trim_front(s@) == t);
    }
    let mut end: usize = n;
    while end > start && is_space(s[end - 1])
        invariant
            start <= end <= n,
            n == s@.len(),
            spec_trim_front(s@) == s@.skip(start as int),
            spec_trim(s@) == spec_trim_back(s@.subrange(start as int, end as int)),
        decreases end,
    {
        proof {
            let t = s@.subrange(start as int, end as int);
            assert(t.last() == s@[end - 1]);
            assert(t.drop_last() =~= s@.subrange(start as int, end as int - 1));
        }
        end = end - 1;
    }
    proof {
        assert(s@.skip(start as int) =~= s@.subrange(start as int, n as int));
        let t = s@.subrange(start as int, end as int);
        if end > start {
            assert(t.last() == s@[end - 1]);
        }
        assert(spec_trim(s@) == t);
    }
    let mut dstart: usize = start;
    if end - start >= 2 && s[start] == 0x30 && s[start + 1] == 0x78 {
        dstart = start + 2;
    }
    proof {
        let t = s@.subrange(start as int, end as int);
        if t.len() >= 2 {
            assert(t[0] == s@[start as int]);
            assert(t[1] == s@[start as int + 1]);
            if t[0] == 0x30 && t[1] == 0x78 {
                assert(t.skip(2) =~= s@.subrange(start as int + 2, end as int));
            }
        }
        assert(spec_strip_0x(spec_trim(s@)) == s@.subrange(dstart as int, end as int));
    }
    let ghost d = s@.subrange(dstart as int, end as int);
    if dstart == end {
        return Err(Error::Parse);
    }
    let mut val: u32 = 0;
    let mut i: usize = dstart;
    while i < end
        invariant
            dstart <= i <= end <= n,
            n == s@.len(),
            d == s@.subrange(dstart as int, end as int),
            d == spec_strip_0x(spec_trim(s@)),
            d.len() > 0,
            all_hex(d.take(i - dstart)),
            val == hex_seq_value(d.take(i - dstart)),
            val <= 0xffff,
        decreases end - i,
    {
        proof {
            assert(d[i - dstart] == s@[i as int]);
        }
        let dig = match hex_value(s[i]) {
            Some(v) => v,
            None => {
                proof {
                    assert(!spec_is_hex_digit(d[i - dstart] as char));
                    assert(!all_hex(d));
                }
                return Err(Error::Parse);
            },
        };
        let nv = val * 16 + dig as u32;
        proof {
            let p = d.take(i - dstart + 1);
            assert(p.drop_last() =~= d.take(i - dstart));
            assert(p.last() == d[i - dstart]);
            assert(all_hex(p)) by {
                assert(forall|j: int| 0 <= j < p.len() ==> p[j] == #[trigger] d[j]);
            }
            assert(hex_seq_value(p) == nv);
        }
        if nv > 0xffff {
            proof {
                if all_hex(d) {
                    lemma_hex_seq_value_prefix(d, i - dstart + 1);
                    assert(hex_seq_value(d) > 0xffff);
                }
            }
            return Err(Error::Parse);
        }
        val = nv;
        i = i + 1;
    }
    proof {
        assert(d.take(end - dstart) =~= d);
    }
    Ok(val as u16)
}

} // verus!
