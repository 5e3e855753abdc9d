//! Numbers of the path-data language, kept as exact decimals.
//!
//! A number is read from its token without rounding: sign, the integer made of
//! all its digits (the mantissa) and a power of ten. A value at or above the
//! point where a 32-bit float overflows counts as infinite.
use vstd::prelude::*;

use crate::text::copy_range;
use crate::text::push_range;

verus! {

/// Largest exponent literal, and largest count of fraction digits, that a token may spell.
pub const EXPONENT_BOUND: u64 = 100000;

/// Smallest magnitude that a 32-bit float rounds to infinity: 2^128 - 2^103.
pub const F32_OVERFLOW: u128 = 340282356779733661637539395458142568448;

/// A parsed numeric parameter.
#[derive(Clone, Copy, Debug, PartialEq, Eq, Structural)]
pub enum Number {
    /// The value `(-1)^negative * mantissa * 10^exponent`.
    Decimal { negative: bool, mantissa: u128, exponent: i64 },
    /// A token that spells "not a number".
    NotANumber,
}

/// Why a token is not a usable number.
#[derive(Clone, Copy, Debug, PartialEq, Eq, Structural)]
pub enum NumberFault {
    /// The token does not follow the number grammar, or exceeds its bounds.
    Malformed,
    /// The token denotes infinity, or a value too large for a 32-bit float.
    Infinite,
}

pub open spec fn is_digit(c: char) -> bool {
    '0' <= c && c <= '9'
}

pub open spec fn digit_value(c: char) -> nat {
    ((c as u32) - ('0' as u32)) as nat
}

/// The natural number written by a sequence of decimal digits.
pub open spec fn digits_value(s: Seq<char>) -> nat
    decreases s.len(),
{
    if s.len() == 0 {
        0
    } else {
        digits_value(s.drop_last()) * 10 + digit_value(s.last())
    }
}

/// How many digits follow one another from position `i` on.
pub open spec fn digit_run(s: Seq<char>, i: int) -> nat
    decreases s.len() - i,
{
    if 0 <= i < s.len() && is_digit(s[i]) {
        1 + digit_run(s, i + 1)
    } else {
        0
    }
}

pub open spec fn pow10(n: nat) -> nat
    decreases n,
{
    if n == 0 {
        1
    } else {
        10 * pow10((n - 1) as nat)
    }
}

/// `c` is the lower-case ASCII letter `w`, in either case.
pub open spec fn same_letter(c: char, w: char) -> bool {
    c == w || (c as u32) + 32 == (w as u32)
}

/// `s` spells the lower-case word `w`, ignoring ASCII case.
pub open spec fn word_matches(s: Seq<char>, w: Seq<char>) -> bool {
    s.len() == w.len() && forall|i: int| 0 <= i < s.len() ==> same_letter(#[trigger] s[i], w[i])
}

/// The value of an exponent part: empty, or `e`/`E`, an optional sign and digits.
pub open spec fn exponent_part(s: Seq<char>) -> Option<int> {
    if s.len() == 0 {
        Some(0)
    } else if s[0] == 'e' || s[0] == 'E' {
        let r = s.drop_first();
        let signed = r.len() > 0 && (r[0] == '+' || r[0] == '-');
        let d = if signed { r.drop_first() } else { r };
        if d.len() > 0 && digit_run(d, 0) == d.len() && digits_value(d) <= EXPONENT_BOUND {
            Some(if signed && r[0] == '-' { -(digits_value(d) as int) } else { digits_value(d) as int })
        } else {
            None
        }
    } else {
        None
    }
}

/// A value `m * 10^e` that a 32-bit float cannot hold.
pub open spec fn overflows(m: nat, e: int) -> bool {
    e >= 0 && m * pow10(e as nat) >= F32_OVERFLOW
}

/// The digits of a decimal body with its point taken out.
pub open spec fn mantissa_digits(b: Seq<char>) -> Seq<char> {
    let i1 = digit_run(b, 0) as int;
    if i1 < b.len() && b[i1] == '.' {
        b.subrange(0, i1) + b.subrange(i1 + 1, i1 + 1 + digit_run(b, i1 + 1))
    } else {
        b.subrange(0, i1)
    }
}

/// Where the digits and the point of a decimal body end.
pub open spec fn fraction_end(b: Seq<char>) -> int {
    let i1 = digit_run(b, 0) as int;
    if i1 < b.len() && b[i1] == '.' {
        i1 + 1 + digit_run(b, i1 + 1)
    } else {
        i1
    }
}

/// A decimal body without sign: digits, an optional point and digits, an optional exponent.
pub open spec fn parse_decimal(negative: bool, b: Seq<char>) -> Result<Number, NumberFault> {
    let md = mantissa_digits(b);
    let f = md.len() - digit_run(b, 0);
    if md.len() == 0 {
        Err(NumberFault::Malformed)
    } else {
        match exponent_part(b.subrange(fraction_end(b), b.len() as int)) {
            None => Err(NumberFault::Malformed),
            Some(e) => {
                if digits_value(md) > u128::MAX || f > EXPONENT_BOUND {
                    Err(NumberFault::Malformed)
                } else if overflows(digits_value(md), e - f) {
                    Err(NumberFault::Infinite)
                } else {
                    Ok(Number::Decimal {
                        negative,
                        mantissa: digits_value(md) as u128,
                        exponent: (e - f) as i64,
                    })
                }
            },
        }
    }
}

/// What a token of the path-data language stands for.
pub open spec fn parse_number_spec(t: Seq<char>) -> Result<Number, NumberFault> {
    let signed = t.len() > 0 && (t[0] == '-' || t[0] == '+');
    let negative = t.len() > 0 && t[0] == '-';
    let body = if signed { t.drop_first() } else { t };
    if word_matches(body, seq!['i', 'n', 'f']) || word_matches(
        body,
        seq!['i', 'n', 'f', 'i', 'n', 'i', 't', 'y'],
    ) {
        Err(NumberFault::Infinite)
    } else if word_matches(body, seq!['n', 'a', 'n']) {
        Ok(Number::NotANumber)
    } else {
        parse_decimal(negative, body)
    }
}

pub proof fn lemma_digit_run_bound(s: Seq<char>, i: int)
    requires
        0 <= i <= s.len(),
    ensures
        i + digit_run(s, i) <= s.len(),
        forall|k: int| i <= k < i + digit_run(s, i) ==> is_digit(#[trigger] s[k]),
        i + digit_run(s, i) < s.len() ==> !is_digit(s[i + digit_run(s, i)]),
    decreases s.len() - i,
{
    if i < s.len() && is_digit(s[i]) {
        lemma_digit_run_bound(s, i + 1);
    }
}

/// Number of digits from position `i` on.
pub fn digit_run_exec(s: &Vec<char>, i: usize) -> (r: usize)
    requires
        i <= s@.len(),
    ensures
        r == digit_run(s@, i as int),
        i + r <= s@.len(),
{
    let mut j: usize = i;
    while j < s.len() && '0' <= s[j] && s[j] <= '9'
        invariant
            i <= j <= s@.len(),
            digit_run(s@, i as int) == (j - i) + digit_run(s@, j as int),
        decreases s@.len() - j,
    {
        j = j + 1;
    }
    j - i
}

proof fn lemma_digits_value_mono(s: Seq<char>, j: int, k: int)
    requires
        0 <= j <= k <= s.len(),
    ensures
        digits_value(s.subrange(0, j)) <= digits_value(s.subrange(0, k)),
    decreases k - j,
{
    if j < k {
        lemma_digits_value_mono(s, j, k - 1);
        assert(s.subrange(0, k).drop_last() == s.subrange(0, k - 1));
    }
}

/// The value of a sequence of digits, if it is at most `limit`.
pub fn digits_value_upto(s: &Vec<char>, limit: u128) -> (r: Option<u128>)
    requires
        forall|k: int| 0 <= k < s@.len() ==> is_digit(#[trigger] s@[k]),
    ensures
        match r {
            Some(v) => v == digits_value(s@) && v <= limit,
            None => digits_value(s@) > limit,
        },
{
    let mut acc: u128 = 0;
    let mut i: usize = 0;
    while i < s.len()
        invariant
            i <= s@.len(),
            acc == digits_value(s@.subrange(0, i as int)),
            acc <= limit,
            forall|k: int| 0 <= k < s@.len() ==> is_digit(#[trigger] s@[k]),
        decreases s@.len() - i,
    {
        let d = (s[i] as u32 - '0' as u32) as u128;
        assert(s@.subrange(0, i + 1).drop_last() == s@.subrange(0, i as int));
        assert(d == digit_value(s@[i as int]));
        if d > limit || acc > (limit - d) / 10 {
            proof {
                if d <= limit {
                    assert(acc * 10 + d > limit) by (nonlinear_arith)
                        requires acc > (limit - d) / 10, d <= limit;
                }
                lemma_digits_value_mono(s@, i + 1, s@.len() as int);
                assert(s@.subrange(0, s@.len() as int) == s@);
            }
            return None;
        }
        proof {
            assert(acc * 10 + d <= limit) by (nonlinear_arith)
                requires acc <= (limit - d) / 10, d <= 9, d <= limit;
        }
        acc = acc * 10 + d;
        i = i + 1;
    }
    assert(s@.subrange(0, s@.len() as int) == s@);
    Some(acc)
}

proof fn lemma_pow10_mono(a: nat, b: nat)
    requires
        a <= b,
    ensures
        1 <= pow10(a) <= pow10(b),
    decreases b,
{
    if b > 0 {
        if a < b {
            lemma_pow10_mono(a, (b - 1) as nat);
        } else {
            lemma_pow10_mono((b - 1) as nat, (b - 1) as nat);
        }
    }
}

proof fn lemma_pow10_values()
    ensures
        pow10(38) == 100000000000000000000000000000000000000u128,
        pow10(39) == 1000000000000000000000000000000000000000nat,
{
    reveal_with_fuel(pow10, 40);
}

/// `10^k` for `k <= 38`.
fn pow10_exec(k: u32) -> (r: u128)
    requires
        k <= 38,
    ensures
        r == pow10(k as nat),
{
    let mut p: u128 = 1;
    let mut i: u32 = 0;
    while i < k
        invariant
            i <= k <= 38,
            p == pow10(i as nat),
        decreases k - i,
    {
        proof {
            lemma_pow10_mono(i as nat, 37);
            lemma_pow10_values();
            assert(pow10(38) == 10 * pow10(37));
        }
        p = p * 10;
        i = i + 1;
    }
    p
}

proof fn lemma_product_threshold(m: nat, p: nat, t: nat)
    requires
        p > 0,
        t > 0,
    ensures
        (m * p >= t) == (m > (t - 1) as nat / p),
{
    let q = (t - 1) as nat / p;
    let r = (t - 1) as nat % p;
    assert((t - 1) as nat == q * p + r && r < p) by (nonlinear_arith)
        requires q == (t - 1) as nat / p, r == (t - 1) as nat % p, p > 0;
    if m > q {
        assert(m * p >= (q + 1) * p) by (nonlinear_arith)
            requires m >= q + 1, p > 0;
        assert((q + 1) * p == q * p + p) by (nonlinear_arith);
    } else {
        assert(m * p <= q * p) by (nonlinear_arith)
            requires m <= q, p > 0;
    }
}

/// Whether `m * 10^e` is too large for a 32-bit float.
pub fn overflows_exec(m: u128, e: i64) -> (r: bool)
    ensures
        r == overflows(m as nat, e as int),
{
    if e < 0 {
        false
    } else if e >= 39 {
        proof {
            lemma_pow10_mono(39, e as nat);
            lemma_pow10_values();
            if m > 0 {
                assert(m * pow10(e as nat) >= pow10(e as nat)) by (nonlinear_arith)
                    requires m >= 1;
            } else {
                assert(m * pow10(e as nat) == 0) by (nonlinear_arith)
                    requires m == 0;
            }
        }
        m > 0
    } else {
        let p = pow10_exec(e as u32);
        proof {
            lemma_pow10_mono(0, e as nat);
            lemma_product_threshold(m as nat, p as nat, F32_OVERFLOW as nat);
        }
        m > (F32_OVERFLOW - 1) / p
    }
}

/// Whether `s` spells the lower-case word `w`, ignoring ASCII case.
fn word_is(s: &Vec<char>, w: &Vec<char>) -> (r: bool)
    ensures
        r == word_matches(s@, w@),
{
    if s.len() != w.len() {
        return false;
    }
    let mut i: usize = 0;
    while i < s.len()
        invariant
            i <= s@.len(),
            s@.len() == w@.len(),
            forall|k: int| 0 <= k < i ==> same_letter(#[trigger] s@[k], w@[k]),
        decreases s@.len() - i,
    {
        let c = s[i];
        let x = w[i];
        if !(c == x || (c as u32) as u64 + 32 == (x as u32) as u64) {
            return false;
        }
        i = i + 1;
    }
    true
}

/// The value of an exponent part that starts at `start`.
fn exponent_part_exec(b: &Vec<char>, start: usize) -> (r: Option<i64>)
    requires
        start <= b@.len(),
    ensures
        match exponent_part(b@.subrange(start as int, b@.len() as int)) {
            None => r.is_none(),
            Some(e) => r == Some(e as i64) && -(EXPONENT_BOUND as int) <= e <= EXPONENT_BOUND,
        },
{
    let n = b.len();
    let ghost s = b@.subrange(start as int, n as int);
    if start == n {
        return Some(0);
    }
    if !(b[start] == 'e' || b[start] == 'E') {
        return None;
    }
    let mut k: usize = start + 1;
    let signed = k < n && (b[k] == '+' || b[k] == '-');
    let negative = signed && b[k] == '-';
    if signed {
        k = k + 1;
    }
    let d = copy_range(b, k, n);
    proof {
        let r = s.drop_first();
        assert(r =~= b@.subrange(start + 1, n as int));
        if signed {
            assert(r.drop_first() =~= d@);
        } else {
            assert(r =~= d@);
        }
    }
    let run = digit_run_exec(&d, 0);
    if d.len() > 0 && run == d.len() {
        proof {
            lemma_digit_run_bound(d@, 0);
        }
        match digits_value_upto(&d, EXPONENT_BOUND as u128) {
            Some(v) => {
                if negative {
                    Some(-(v as i64))
                } else {
                    Some(v as i64)
                }
            },
            None => None,
        }
    } else {
        None
    }
}

/// Reads a decimal body without sign.
fn parse_decimal_exec(negative: bool, b: &Vec<char>) -> (r: Result<Number, NumberFault>)
    ensures
        r == parse_decimal(negative, b@),
{
    let n = b.len();
    let i1 = digit_run_exec(b, 0);
    let has_point = i1 < n && b[i1] == '.';
    let f: usize = if has_point { digit_run_exec(b, i1 + 1) } else { 0 };
    let end: usize = if has_point { i1 + 1 + f } else { i1 };
    let mut md = copy_range(b, 0, i1);
    if has_point {
        push_range(&mut md, b, i1 + 1, end);
    }
    assert(md@ == mantissa_digits(b@));
    assert(end == fraction_end(b@));
    if md.len() == 0 {
        return Err(NumberFault::Malformed);
    }
    let e = match exponent_part_exec(b, end) {
        None => {
            return Err(NumberFault::Malformed);
        },
        Some(e) => e,
    };
    proof {
        lemma_digit_run_bound(b@, 0);
        if has_point {
            lemma_digit_run_bound(b@, i1 + 1);
        }
        assert forall|k: int| 0 <= k < md@.len() implies is_digit(#[trigger] md@[k]) by {
            if k >= i1 {
                assert(md@[k] == b@[k + 1]);
            } else {
                assert(md@[k] == b@[k]);
            }
        }
    }
    let m = match digits_value_upto(&md, u128::MAX) {
        None => {
            return Err(NumberFault::Malformed);
        },
        Some(m) => m,
    };
    if f as u64 > EXPONENT_BOUND {
        return Err(NumberFault::Malformed);
    }
    let exponent: i64 = e - f as i64;
    if overflows_exec(m, exponent) {
        return Err(NumberFault::Infinite);
    }
    Ok(Number::Decimal { negative, mantissa: m, exponent })
}

/// Reads one token of the path-data language.
pub fn parse_number(t: &Vec<char>) -> (r: Result<Number, NumberFault>)
    ensures
        r == parse_number_spec(t@),
{
    let n = t.len();
    let signed = n > 0 && (t[0] == '-' || t[0] == '+');
    let negative = n > 0 && t[0] == '-';
    let body = if signed { copy_range(t, 1, n) } else { copy_range(t, 0, n) };
    assert(body@ == (if signed { t@.drop_first() } else { t@ }));
    let inf = vec!['i', 'n', 'f'];
    let infinity = vec!['i', 'n', 'f', 'i', 'n', 'i', 't', 'y'];
    let nan = vec!['n', 'a', 'n'];
    assert(inf@ == seq!['i', 'n', 'f']);
    assert(infinity@ == seq!['i', 'n', 'f', 'i', 'n', 'i', 't', 'y']);
    assert(nan@ == seq!['n', 'a', 'n']);
    if word_is(&body, &inf) || word_is(&body, &infinity) {
        Err(NumberFault::Infinite)
    } else if word_is(&body, &nan) {
        Ok(Number::NotANumber)
    } else {
        parse_decimal_exec(negative, &body)
    }
}

pub open spec fn digit_char(d: nat) -> char {
    if d == 0 {
        '0'
    } else if d == 1 {
        '1'
    } else if d == 2 {
        '2'
    } else if d == 3 {
        '3'
    } else if d == 4 {
        '4'
    } else if d == 5 {
        '5'
    } else if d == 6 {
        '6'
    } else if d == 7 {
        '7'
    } else if d == 8 {
        '8'
    } else {
        '9'
    }
}

/// The decimal digits of `m`, most significant first, without leading zeros.
pub open spec fn digits_text(m: nat) -> Seq<char>
    decreases m,
{
    if m < 10 {
        seq![digit_char(m)]
    } else {
        digits_text(m / 10).push(digit_char(m % 10))
    }
}

/// `m * 10^e` with the trailing zeros of `m` moved into the exponent.
pub open spec fn canonical(m: nat, e: int) -> (nat, int)
    decreases m,
{
    if m > 0 && m % 10 == 0 {
        canonical(m / 10, e + 1)
    } else {
        (m, e)
    }
}

pub open spec fn zeros(n: nat) -> Seq<char> {
    Seq::new(n, |i: int| '0')
}

/// The shortest plain decimal notation of `m * 10^e`: no exponent, no
/// superfluous zeros, and a point only where a fraction remains.
pub open spec fn decimal_text(m: nat, e: int) -> Seq<char> {
    let (c, x) = canonical(m, e);
    let d = digits_text(c);
    if c == 0 {
        seq!['0']
    } else if x >= 0 {
        d + zeros(x as nat)
    } else if d.len() > -x {
        d.subrange(0, d.len() + x) + seq!['.'] + d.subrange(d.len() + x, d.len() as int)
    } else {
        seq!['0', '.'] + zeros((-x - d.len()) as nat) + d
    }
}

/// How a number is written in the output.
pub open spec fn number_text(n: Number) -> Seq<char> {
    match n {
        Number::NotANumber => seq!['N', 'a', 'N'],
        Number::Decimal { negative, mantissa, exponent } => {
            (if negative {
                seq!['-']
            } else {
                Seq::empty()
            }) + decimal_text(mantissa as nat, exponent as int)
        },
    }
}

fn digit_char_exec(d: u128) -> (r: char)
    requires
        d <= 9,
    ensures
        r == digit_char(d as nat),
{
    if d == 0 {
        '0'
    } else if d == 1 {
        '1'
    } else if d == 2 {
        '2'
    } else if d == 3 {
        '3'
    } else if d == 4 {
        '4'
    } else if d == 5 {
        '5'
    } else if d == 6 {
        '6'
    } else if d == 7 {
        '7'
    } else if d == 8 {
        '8'
    } else {
        '9'
    }
}

fn push_digits(out: &mut Vec<char>, m: u128)
    ensures
        final(out)@ == old(out)@ + digits_text(m as nat),
    decreases m,
{
    if m >= 10 {
        push_digits(out, m / 10);
    }
    out.push(digit_char_exec(m % 10));
    assert(final(out)@ =~= old(out)@ + digits_text(m as nat));
}

fn push_zeros(out: &mut Vec<char>, n: u128)
    ensures
        final(out)@ == old(out)@ + zeros(n as nat),
{
    let mut i: u128 = 0;
    while i < n
        invariant
            i <= n,
            out@ == old(out)@ + zeros(i as nat),
        decreases n - i,
    {
        out.push('0');
        i = i + 1;
        assert(out@ =~= old(out)@ + zeros(i as nat));
    }
}

/// Appends the written form of `n` to `out`.
#[verifier::rlimit(40)]
pub fn push_number_text(out: &mut Vec<char>, n: Number)
    ensures
        final(out)@ == old(out)@ + number_text(n),
{
    match n {
        Number::NotANumber => {
            out.push('N');
            out.push('a');
            out.push('N');
            assert(final(out)@ =~= old(out)@ + number_text(n));
        },
        Number::Decimal { negative, mantissa, exponent } => {
            if negative {
                out.push('-');
            }
            let ghost start = out@;
            let mut c: u128 = mantissa;
            let mut x: i128 = exponent as i128;
            assert(x - exponent == 0);
            assert(pow10(0) == 1);
            assert(c as nat * pow10(0) == mantissa as nat) by (nonlinear_arith)
                requires c == mantissa, pow10(0) == 1;
            while c > 0 && c % 10 == 0
                invariant
                    canonical(mantissa as nat, exponent as int) == canonical(c as nat, x as int),
                    exponent as int <= x,
                    c as nat * pow10((x - exponent) as nat) <= mantissa as nat,
                decreases c,
            {
                proof {
                    let k = (x - exponent) as nat;
                    assert(c as nat * pow10(k) >= pow10(k)) by (nonlinear_arith)
                        requires c >= 1;
                    lemma_pow10_values();
                    if k >= 39 {
                        lemma_pow10_mono(39, k);
                    }
                    assert(k < 39);
                    assert((c / 10) as nat * pow10(k + 1) == c as nat * pow10(k)) by (nonlinear_arith)
                        requires c % 10 == 0, pow10(k + 1) == 10 * pow10(k);
                }
                c = c / 10;
                x = x + 1;
            }
            if c == 0 {
                out.push('0');
            } else {
                let mut d: Vec<char> = Vec::new();
                push_digits(&mut d, c);
                assert(d@ == digits_text(c as nat));
                let len = d.len();
                if x >= 0 {
                    push_range(out, &d, 0, len);
                    push_zeros(out, x as u128);
                    assert(d@.subrange(0, len as int) == d@);
                } else if (len as i128) > -x {
                    let cut = ((len as i128) + x) as usize;
                    push_range(out, &d, 0, cut);
                    out.push('.');
                    push_range(out, &d, cut, len);
                } else {
                    out.push('0');
                    out.push('.');
                    push_zeros(out, (-x - (len as i128)) as u128);
                    push_range(out, &d, 0, len);
                    assert(d@.subrange(0, len as int) == d@);
                }
            }
            assert(out@ =~= start + decimal_text(mantissa as nat, exponent as int));
            assert(final(out)@ =~= old(out)@ + number_text(n));
        },
    }
}

} // verus!
