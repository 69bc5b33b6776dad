//! Decimal literals in the grammar that Rust's `f64::from_str` accepts:
//!
//! ```text
//! Float  ::= Sign? ( 'inf' | 'infinity' | 'nan' | Number )
//! Number ::= ( Digit+ | Digit+ '.' Digit* | Digit* '.' Digit+ ) Exp?
//! Exp    ::= 'e' Sign? Digit+
//! ```
//!
//! Letters match without regard to case. The library keeps such a literal as
//! text; turning it into a machine float is left to the caller.
use vstd::prelude::*;

verus! {

pub open spec fn is_digit(c: char) -> bool {
    '0' <= c && c <= '9'
}

pub open spec fn is_sign(c: char) -> bool {
    c == '+' || c == '-'
}

pub open spec fn is_exp_mark(c: char) -> bool {
    c == 'e' || c == 'E'
}

/// The capital form of the letters that the special words use.
pub open spec fn capital(c: char) -> char {
    match c {
        'a' => 'A',
        'f' => 'F',
        'i' => 'I',
        'n' => 'N',
        't' => 'T',
        'y' => 'Y',
        _ => c,
    }
}

/// `c` is the lower-case letter `l` or its capital.
pub open spec fn same_letter(c: char, l: char) -> bool {
    c == l || c == capital(l)
}

pub open spec fn all_digits(s: Seq<char>) -> bool {
    forall|i: int| 0 <= i < s.len() ==> is_digit(#[trigger] s[i])
}

/// Number of characters of `s` equal to `c`.
pub open spec fn count_char(s: Seq<char>, c: char) -> nat
    decreases s.len(),
{
    if s.len() == 0 {
        0
    } else {
        count_char(s.drop_last(), c) + if s.last() == c {
            1nat
        } else {
            0nat
        }
    }
}

/// Number of decimal digits in `s`.
pub open spec fn count_digits(s: Seq<char>) -> nat
    decreases s.len(),
{
    if s.len() == 0 {
        0
    } else {
        count_digits(s.drop_last()) + if is_digit(s.last()) {
            1nat
        } else {
            0nat
        }
    }
}

/// Position of the first exponent mark, or the length when there is none.
pub open spec fn exp_pos(s: Seq<char>) -> nat
    decreases s.len(),
{
    if s.len() == 0 {
        0
    } else if is_exp_mark(s[0]) {
        0
    } else {
        1 + exp_pos(s.drop_first())
    }
}

/// Digits with at most one point, and at least one digit.
pub open spec fn mantissa_ok(m: Seq<char>) -> bool {
    &&& forall|i: int| 0 <= i < m.len() ==> (is_digit(#[trigger] m[i]) || m[i] == '.')
    &&& count_char(m, '.') <= 1
    &&& count_digits(m) >= 1
}

/// An optional sign followed by one or more digits.
pub open spec fn exponent_ok(x: Seq<char>) -> bool {
    if x.len() > 0 && is_sign(x[0]) {
        x.len() > 1 && all_digits(x.drop_first())
    } else {
        x.len() > 0 && all_digits(x)
    }
}

pub open spec fn number_ok(t: Seq<char>) -> bool {
    let k = exp_pos(t) as int;
    &&& mantissa_ok(t.take(k))
    &&& (k == t.len() || exponent_ok(t.skip(k + 1)))
}

/// `s` equals the lower-case word `w` when letters are compared without case.
pub open spec fn word_ci(s: Seq<char>, w: Seq<char>) -> bool {
    s.len() == w.len() && forall|i: int| 0 <= i < s.len() ==> same_letter(#[trigger] s[i], w[i])
}

pub open spec fn special_ok(t: Seq<char>) -> bool {
    word_ci(t, seq!['i', 'n', 'f']) || word_ci(t, seq!['i', 'n', 'f', 'i', 'n', 'i', 't', 'y'])
        || word_ci(t, seq!['n', 'a', 'n'])
}

/// The literal without its leading sign, if it has one.
pub open spec fn unsigned_part(s: Seq<char>) -> Seq<char> {
    if s.len() > 0 && is_sign(s[0]) {
        s.drop_first()
    } else {
        s
    }
}

/// `s` is accepted by the float grammar above.
pub open spec fn float_literal(s: Seq<char>) -> bool {
    special_ok(unsigned_part(s)) || number_ok(unsigned_part(s))
}

proof fn lemma_take_step(s: Seq<char>, i: int)
    requires
        0 <= i < s.len(),
    ensures
        s.take(i + 1).drop_last() == s.take(i),
        s.take(i + 1).last() == s[i],
{
    assert(s.take(i + 1).drop_last() =~= s.take(i));
}

proof fn lemma_exp_pos_bound(s: Seq<char>)
    ensures
        exp_pos(s) <= s.len(),
        exp_pos(s) < s.len() ==> is_exp_mark(s[exp_pos(s) as int]),
        forall|j: int| 0 <= j < exp_pos(s) ==> !is_exp_mark(#[trigger] s[j]),
    decreases s.len(),
{
    if s.len() > 0 && !is_exp_mark(s[0]) {
        lemma_exp_pos_bound(s.drop_first());
        assert forall|j: int| 0 <= j < exp_pos(s) implies !is_exp_mark(#[trigger] s[j]) by {
            if j > 0 {
                assert(s[j] == s.drop_first()[j - 1]);
            }
        }
    }
}

proof fn lemma_exp_pos_first(s: Seq<char>, k: int)
    requires
        0 <= k <= s.len(),
        k < s.len() ==> is_exp_mark(s[k]),
        forall|j: int| 0 <= j < k ==> !is_exp_mark(#[trigger] s[j]),
    ensures
        exp_pos(s) == k,
    decreases s.len(),
{
    if s.len() > 0 && k > 0 {
        let t = s.drop_first();
        assert forall|j: int| 0 <= j < k - 1 implies !is_exp_mark(#[trigger] t[j]) by {
            assert(t[j] == s[j + 1]);
        }
        assert(!is_exp_mark(s[0]));
        lemma_exp_pos_first(t, k - 1);
    }
}

/// Whether `s[from..to]` holds digits and points only, at most one point and
/// at least one digit.
fn check_mantissa(s: &str, from: usize, to: usize) -> (r: bool)
    requires
        from <= to <= s@.len(),
    ensures
        r == mantissa_ok(s@.subrange(from as int, to as int)),
{
    let ghost m = s@.subrange(from as int, to as int);
    let mut i: usize = from;
    let mut dots: usize = 0;
    let mut digits: usize = 0;
    let mut clean = true;
    while i < to
        invariant
            from <= i <= to <= s@.len(),
            m == s@.subrange(from as int, to as int),
            dots as nat == count_char(m.take(i - from), '.'),
            digits as nat == count_digits(m.take(i - from)),
            dots <= i - from,
            digits <= i - from,
            clean == forall|j: int| 0 <= j < i - from ==> (is_digit(#[trigger] m[j]) || m[j] == '.'),
        decreases to - i,
    {
        let c = s.get_char(i);
        proof {
            lemma_take_step(m, i - from);
            assert(m[i - from] == c);
        }
        if c == '.' {
            dots = dots + 1;
        } else if '0' <= c && c <= '9' {
            digits = digits + 1;
        } else {
            clean = false;
        }
        i = i + 1;
    }
    proof {
        assert(m.take(m.len() as int) =~= m);
    }
    clean && dots <= 1 && digits >= 1
}

/// Whether `s[from..]` is an optional sign followed by one or more digits.
fn check_exponent(s: &str, from: usize, len: usize) -> (r: bool)
    requires
        len == s@.len(),
        from <= len,
    ensures
        r == exponent_ok(s@.skip(from as int)),
{
    let ghost x = s@.skip(from as int);
    if from == len {
        return false;
    }
    let first = s.get_char(from);
    let start: usize = if first == '+' || first == '-' { from + 1 } else { from };
    assert(x[0] == first);
    assert(is_sign(x[0]) <==> start == from + 1);
    if start == len {
        return false;
    }
    let mut i: usize = start;
    while i < len
        invariant
            from <= start <= i <= len == s@.len(),
            x == s@.skip(from as int),
            x.len() == len - from,
            start == from || start == from + 1,
            x.len() > 0,
            is_sign(x[0]) <==> start == from + 1,
            forall|j: int| start <= j < i ==> is_digit(#[trigger] s@[j]),
        decreases len - i,
    {
        let c = s.get_char(i);
        if !('0' <= c && c <= '9') {
            proof {
                assert(s@[i as int] == c);
                if is_sign(x[0]) {
                    assert(x.drop_first()[i - start] == s@[i as int]);
                    assert(!is_digit(x.drop_first()[i - start]));
                } else {
                    assert(x[i - start] == s@[i as int]);
                    assert(!is_digit(x[i - start]));
                }
            }
            return false;
        }
        i = i + 1;
    }
    proof {
        if is_sign(x[0]) {
            assert forall|j: int| 0 <= j < x.drop_first().len() implies is_digit(
                #[trigger] x.drop_first()[j],
            ) by {
                assert(x.drop_first()[j] == s@[start + j]);
            }
        } else {
            assert forall|j: int| 0 <= j < x.len() implies is_digit(#[trigger] x[j]) by {
                assert(x[j] == s@[start + j]);
            }
        }
    }
    true
}

fn capital_of(l: char) -> (r: char)
    ensures
        r == capital(l),
{
    match l {
        'a' => 'A',
        'f' => 'F',
        'i' => 'I',
        'n' => 'N',
        't' => 'T',
        'y' => 'Y',
        _ => l,
    }
}

/// Whether `s[from..]` equals the lower-case ASCII word `w` regardless of case.
fn check_word(s: &str, from: usize, len: usize, w: &str) -> (r: bool)
    requires
        len == s@.len(),
        from <= len,
    ensures
        r == word_ci(s@.skip(from as int), w@),
{
    let ghost t = s@.skip(from as int);
    let wl = w.unicode_len();
    if len - from != wl {
        return false;
    }
    let mut i: usize = 0;
    while i < wl
        invariant
            wl == w@.len(),
            len - from == wl,
            len == s@.len(),
            t == s@.skip(from as int),
            i <= wl,
            forall|j: int| 0 <= j < i ==> same_letter(#[trigger] t[j], w@[j]),
        decreases wl - i,
    {
        let c = s.get_char(from + i);
        let l = w.get_char(i);
        let cap = capital_of(l);
        assert(t[i as int] == c);
        if c != l && c != cap {
            return false;
        }
        i = i + 1;
    }
    true
}

/// Whether `s` is a literal that `f64::from_str` accepts.
pub fn is_float_literal(s: &str) -> (r: bool)
    ensures
        r == float_literal(s@),
{
    let len = s.unicode_len();
    let start: usize = if len > 0 && (s.get_char(0) == '+' || s.get_char(0) == '-') { 1 } else { 0 };
    let ghost t = unsigned_part(s@);
    assert(t =~= s@.skip(start as int));
    proof {
        reveal_strlit("inf");
        reveal_strlit("infinity");
        reveal_strlit("nan");
    }
    if check_word(s, start, len, "inf") || check_word(s, start, len, "infinity") || check_word(
        s,
        start,
        len,
        "nan",
    ) {
        proof {
            assert(seq!['i', 'n', 'f'] =~= "inf"@);
            assert(seq!['i', 'n', 'f', 'i', 'n', 'i', 't', 'y'] =~= "infinity"@);
            assert(seq!['n', 'a', 'n'] =~= "nan"@);
        }
        return true;
    }
    proof {
        assert(seq!['i', 'n', 'f'] =~= "inf"@);
        assert(seq!['i', 'n', 'f', 'i', 'n', 'i', 't', 'y'] =~= "infinity"@);
        assert(seq!['n', 'a', 'n'] =~= "nan"@);
    }
    let mut k: usize = start;
    while k < len && !(s.get_char(k) == 'e' || s.get_char(k) == 'E')
        invariant
            start <= k <= len == s@.len(),
            forall|j: int| start <= j < k ==> !is_exp_mark(#[trigger] s@[j]),
        decreases len - k,
    {
        k = k + 1;
    }
    proof {
        assert forall|j: int| 0 <= j < k - start implies !is_exp_mark(#[trigger] t[j]) by {
            assert(t[j] == s@[start + j]);
        }
        if k < len {
            assert(t[k - start] == s@[k as int]);
        }
        lemma_exp_pos_first(t, k - start);
        assert(t.take(k - start) =~= s@.subrange(start as int, k as int));
    }
    let m = check_mantissa(s, start, k);
    if !m {
        return false;
    }
    if k == len {
        return true;
    }
    proof {
        assert(t.skip(k - start + 1) =~= s@.skip(k + 1));
    }
    check_exponent(s, k + 1, len)
}

/// A decimal literal that `f64::from_str` accepts, kept as its text.
pub struct Decimal {
    text: String,
}

impl View for Decimal {
    type V = Seq<char>;

    closed spec fn view(&self) -> Seq<char> {
        self.text@
    }
}

impl Decimal {
    #[verifier::type_invariant]
    spec fn inv(&self) -> bool {
        float_literal(self.text@)
    }

    /// The decimal written `s`, if `s` is an accepted literal.
    pub fn parse(s: &str) -> (r: Option<Decimal>)
        ensures
            r is Some <==> float_literal(s@),
            r matches Some(d) ==> d@ == s@,
    {
        if is_float_literal(s) {
            Some(Decimal { text: String::from_str(s) })
        } else {
            None
        }
    }

    /// The decimal `0`.
    pub fn zero() -> (r: Decimal)
        ensures
            r@ == seq!['0'],
    {
        proof {
            reveal_strlit("0");
        }
        let text = String::from_str("0");
        proof {
            assert(text@ =~= seq!['0']);
            assert(text@[0] == '0');
            assert(text@.drop_last().len() == 0);
            assert(text@.last() == '0');
            assert(exp_pos(text@) == 1) by {
                assert(text@.drop_first().len() == 0);
                assert(exp_pos(text@.drop_first()) == 0);
            }
            assert(text@.take(1) =~= text@);
            assert(count_char(text@.drop_last(), '.') == 0);
            assert(count_char(text@, '.') == 0);
            assert(count_digits(text@.drop_last()) == 0);
            assert(count_digits(text@) == 1);
        }
        Decimal { text }
    }

    /// The literal's text.
    pub fn as_str(&self) -> (r: &str)
        ensures
            r@ == self@,
    {
        self.text.as_str()
    }
}

impl Clone for Decimal {
    fn clone(&self) -> (r: Decimal)
        ensures
            r@ == self@,
    {
        proof {
            use_type_invariant(self);
        }
        Decimal { text: self.text.clone() }
    }
}

} // verus!
