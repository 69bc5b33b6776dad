//! Hex quantities as a JSON-RPC node returns them: leading `0x` marks are
//! removed, then the rest is read as base 16 the way `u64::from_str_radix`
//! reads it (an optional `+`, one or more hex digits, no overflow).
use vstd::prelude::*;

verus! {

pub open spec fn is_hex_digit(c: char) -> bool {
    ('0' <= c && c <= '9') || ('a' <= c && c <= 'f') || ('A' <= c && c <= 'F')
}

pub open spec fn hex_digit_value(c: char) -> nat {
    if '0' <= c && c <= '9' {
        (c as u32 - '0' as u32) as nat
    } else if 'a' <= c && c <= 'f' {
        (c as u32 - 'a' as u32 + 10) as nat
    } else {
        (c as u32 - 'A' as u32 + 10) as nat
    }
}

pub open spec fn all_hex(s: Seq<char>) -> bool {
    forall|i: int| 0 <= i < s.len() ==> is_hex_digit(#[trigger] s[i])
}

/// The number that the digits `d` denote in base 16.
pub open spec fn hex_value(d: Seq<char>) -> nat
    decreases d.len(),
{
    if d.len() == 0 {
        0
    } else {
        hex_value(d.drop_last()) * 16 + hex_digit_value(d.last())
    }
}

/// `s` with every leading `0x` removed.
pub open spec fn strip_hex_marks(s: Seq<char>) -> Seq<char>
    decreases s.len(),
{
    if s.len() >= 2 && s[0] == '0' && s[1] == 'x' {
        strip_hex_marks(s.skip(2))
    } else {
        s
    }
}

pub open spec fn without_plus(s: Seq<char>) -> Seq<char> {
    if s.len() > 0 && s[0] == '+' {
        s.drop_first()
    } else {
        s
    }
}

/// What a hex quantity `s` decodes to, if anything.
pub open spec fn hex_decode(s: Seq<char>) -> Option<u64> {
    let d = without_plus(strip_hex_marks(s));
    if d.len() > 0 && all_hex(d) && hex_value(d) <= u64::MAX {
        Some(hex_value(d) as u64)
    } else {
        None
    }
}

pub open spec fn hex_alphabet() -> Seq<char> {
    seq!['0', '1', '2', '3', '4', '5', '6', '7', '8', '9', 'a', 'b', 'c', 'd', 'e', 'f']
}

/// `n` in lower-case base 16, without leading zeros (`0` for zero).
pub open spec fn hex_text(n: nat) -> Seq<char>
    decreases n,
{
    if n < 16 {
        seq![hex_alphabet()[n as int]]
    } else {
        hex_text(n / 16).push(hex_alphabet()[(n % 16) as int])
    }
}

proof fn lemma_alphabet(v: nat)
    requires
        v < 16,
    ensures
        is_hex_digit(hex_alphabet()[v as int]),
        hex_digit_value(hex_alphabet()[v as int]) == v,
        hex_alphabet()[v as int] != 'x',
        hex_alphabet()[v as int] != '+',
{
}

proof fn lemma_hex_text(n: nat)
    ensures
        hex_text(n).len() > 0,
        all_hex(hex_text(n)),
        hex_value(hex_text(n)) == n,
        hex_text(n)[0] != '+',
        hex_text(n).len() >= 2 ==> hex_text(n)[1] != 'x',
    decreases n,
{
    if n < 16 {
        lemma_alphabet(n);
        let t = hex_text(n);
        assert(t.drop_last().len() == 0);
        assert(hex_value(t.drop_last()) == 0);
    } else {
        lemma_hex_text(n / 16);
        lemma_alphabet(n % 16);
        let t = hex_text(n);
        assert(t.drop_last() =~= hex_text(n / 16));
        assert(t[0] == hex_text(n / 16)[0]);
        if hex_text(n / 16).len() >= 2 {
            assert(t[1] == hex_text(n / 16)[1]);
        } else {
            assert(t[1] == hex_alphabet()[(n % 16) as int]);
        }
    }
}

/// Decoding `0x` followed by the hex digits of any `u64` gives that number back.
pub proof fn lemma_hex_round_trip(n: u64)
    ensures
        hex_decode(seq!['0', 'x'] + hex_text(n as nat)) == Some(n),
{
    let t = hex_text(n as nat);
    lemma_hex_text(n as nat);
    let s = seq!['0', 'x'] + t;
    assert(s.skip(2) =~= t);
    assert(s[0] == '0' && s[1] == 'x');
    assert(strip_hex_marks(t) == t);
    assert(strip_hex_marks(s) == t);
    assert(without_plus(t) == t);
}

proof fn lemma_prefix_value_bound(d: Seq<char>, i: int)
    requires
        0 <= i <= d.len(),
    ensures
        hex_value(d.take(i)) <= hex_value(d),
    decreases d.len() - i,
{
    if i < d.len() {
        lemma_prefix_value_bound(d, i + 1);
        assert(d.take(i + 1).drop_last() =~= d.take(i));
    } else {
        assert(d.take(i) =~= d);
    }
}

/// Reads a hex quantity such as an `eth_blockNumber` result.
pub fn decode_hex_quantity(s: &str) -> (r: Option<u64>)
    ensures
        r == hex_decode(s@),
{
    let len = s.unicode_len();
    let mut p: usize = 0;
    assert(s@.skip(0) =~= s@);
    while len - p > 1 && s.get_char(p) == '0' && s.get_char(p + 1) == 'x'
        invariant
            p <= len == s@.len(),
            strip_hex_marks(s@.skip(p as int)) == strip_hex_marks(s@),
        decreases len - p,
    {
        proof {
            let t = s@.skip(p as int);
            assert(t[0] == s@[p as int] && t[1] == s@[p + 1]);
            assert(t.skip(2) =~= s@.skip(p + 2));
        }
        p = p + 2;
    }
    let ghost rest = s@.skip(p as int);
    proof {
        if rest.len() >= 2 {
            assert(rest[0] == s@[p as int] && rest[1] == s@[p + 1]);
        }
        assert(strip_hex_marks(rest) == rest);
        assert(strip_hex_marks(s@) == rest);
    }
    if p < len && s.get_char(p) == '+' {
        p = p + 1;
    }
    let ghost d = without_plus(rest);
    assert(d =~= s@.skip(p as int));
    if p == len {
        return None;
    }
    let start = p;
    let mut acc: u64 = 0;
    let mut i: usize = p;
    while i < len
        invariant
            start <= i <= len == s@.len(),
            d =~= s@.skip(start as int),
            d == without_plus(strip_hex_marks(s@)),
            all_hex(d.take(i - start)),
            acc as nat == hex_value(d.take(i - start)),
        decreases len - i,
    {
        let c = s.get_char(i);
        proof {
            assert(d[i - start] == c);
            assert(d.take(i - start + 1).drop_last() =~= d.take(i - start));
            assert(d.take(i - start + 1).last() == c);
        }
        let v: u64 = if '0' <= c && c <= '9' {
            (c as u32 - '0' as u32) as u64
        } else if 'a' <= c && c <= 'f' {
            (c as u32 - 'a' as u32 + 10) as u64
        } else if 'A' <= c && c <= 'F' {
            (c as u32 - 'A' as u32 + 10) as u64
        } else {
            proof {
                assert(!is_hex_digit(d[i - start]));
            }
            return None;
        };
        if acc > (u64::MAX - v) / 16 {
            proof {
                assert(hex_value(d.take(i - start + 1)) > u64::MAX) by (nonlinear_arith)
                    requires
                        hex_value(d.take(i - start + 1)) == acc as nat * 16 + v as nat,
                        acc > (u64::MAX - v) / 16,
                        v < 16,
                ;
                lemma_prefix_value_bound(d, i - start + 1);
            }
            return None;
        }
        proof {
            assert(acc * 16 + v <= u64::MAX) by (nonlinear_arith)
                requires
                    acc <= (u64::MAX - v) / 16,
                    v < 16,
            ;
            assert forall|j: int| 0 <= j < i - start + 1 implies is_hex_digit(
                #[trigger] d.take(i - start + 1)[j],
            ) by {
                if j < i - start {
                    assert(d.take(i - start + 1)[j] == d.take(i - start)[j]);
                }
            }
        }
        acc = acc * 16 + v;
        i = i + 1;
    }
    proof {
        assert(d.take(i - start) =~= d);
    }
    Some(acc)
}

} // verus!
