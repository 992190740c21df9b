//! Field-level codec primitives for the serialized identity payload.
//!
//! Integers are written as fixed-width decimal digit runs (zero padded),
//! strings as a fixed-width length followed by the characters themselves, so
//! that every field of a payload sits at a computable offset.  The
//! `lemma_read_fixed_digits` family shows that reading a written run yields
//! the written value back.

use vstd::prelude::*;

verus! {

pub open spec fn spec_digit_val(c: char) -> Option<nat> {
    if c == '0' {
        Some(0nat)
    } else if c == '1' {
        Some(1nat)
    } else if c == '2' {
        Some(2nat)
    } else if c == '3' {
        Some(3nat)
    } else if c == '4' {
        Some(4nat)
    } else if c == '5' {
        Some(5nat)
    } else if c == '6' {
        Some(6nat)
    } else if c == '7' {
        Some(7nat)
    } else if c == '8' {
        Some(8nat)
    } else if c == '9' {
        Some(9nat)
    } else {
        None
    }
}

pub open spec fn spec_digit_char(d: nat) -> char {
    if d == 0 {
        '0'
    } else if d == 1 {
        '1'
    } else if d == 2 {
        '2'
    } else if d == 3 {
        '3'
    } else if d == 4 {
        '4'
    } else if d == 5 {
        '5'
    } else if d == 6 {
        '6'
    } else if d == 7 {
        '7'
    } else if d == 8 {
        '8'
    } else {
        '9'
    }
}

pub open spec fn pow10(w: nat) -> nat
    decreases w,
{
    if w == 0 {
        1
    } else {
        10 * pow10((w - 1) as nat)
    }
}

/// The last `w` decimal digits of `n`, most significant first.
pub open spec fn spec_fixed_digits(n: nat, w: nat) -> Seq<char>
    decreases w,
{
    if w == 0 {
        Seq::<char>::empty()
    } else {
        spec_fixed_digits(n / 10, (w - 1) as nat) + seq![spec_digit_char(n % 10)]
    }
}

/// The value of the `w` digit characters of `s` starting at `i`, or `None`
/// if any of them is not a digit.
pub open spec fn spec_read_digits(s: Seq<char>, i: int, w: nat) -> Option<nat>
    decreases w,
{
    if w == 0 {
        Some(0nat)
    } else {
        match spec_read_digits(s, i, (w - 1) as nat) {
            Some(v) => match spec_digit_val(s[i + w - 1]) {
                Some(d) => Some(v * 10 + d),
                None => None,
            },
            None => None,
        }
    }
}

pub proof fn lemma_digit_roundtrip(d: nat)
    requires
        d < 10,
    ensures
        spec_digit_val(spec_digit_char(d)) == Some(d),
{
}

pub proof fn lemma_pow10_monotone(w1: nat, w2: nat)
    requires
        w1 <= w2,
    ensures
        pow10(w1) <= pow10(w2),
        pow10(w1) >= 1,
    decreases w2,
{
    if w2 > 0 {
        if w1 == w2 {
            lemma_pow10_monotone((w1 - 1) as nat, (w2 - 1) as nat);
        } else {
            lemma_pow10_monotone(w1, (w2 - 1) as nat);
        }
    }
}

/// `pow10(20)` written out, so that concrete bounds are available.
pub proof fn lemma_pow10_20()
    ensures
        pow10(20) == 100000000000000000000,
{
    reveal_with_fuel(pow10, 21);
}

/// Digit decomposition of a remainder: the last `w` digits of `n` are the
/// last `w - 1` digits of `n / 10` followed by `n % 10`.
proof fn lemma_mod_digit_decomp(n: nat, w: nat)
    requires
        w >= 1,
    ensures
        ((n / 10) % pow10((w - 1) as nat)) * 10 + n % 10 == n % pow10(w),
{
    let p = pow10((w - 1) as nat) as int;
    lemma_pow10_monotone(0, (w - 1) as nat);
    assert(pow10(w) == 10 * pow10((w - 1) as nat));
    let x = n as int;
    vstd::arithmetic::div_mod::lemma_fundamental_div_mod(x, 10);
    vstd::arithmetic::div_mod::lemma_fundamental_div_mod(x / 10, p);
    vstd::arithmetic::div_mod::lemma_mod_pos_bound(x, 10);
    vstd::arithmetic::div_mod::lemma_mod_pos_bound(x / 10, p);
    let q = (x / 10) / p;
    let s = (x / 10) % p;
    let r = s * 10 + x % 10;
    assert(x == q * (10 * p) + r) by (nonlinear_arith)
        requires
            x == 10 * (x / 10) + x % 10,
            x / 10 == p * q + s,
            r == s * 10 + x % 10,
    ;
    assert(r < 10 * p);
    vstd::arithmetic::div_mod::lemma_fundamental_div_mod_converse(x, 10 * p, q, r);
}

/// Reading a written digit run yields the written value (modulo the window).
pub proof fn lemma_read_fixed_digits(s: Seq<char>, i: int, n: nat, w: nat)
    requires
        0 <= i,
        i + w <= s.len(),
        s.subrange(i, i + w) == spec_fixed_digits(n, w),
    ensures
        spec_read_digits(s, i, w) == Some((n % pow10(w)) as nat),
    decreases w,
{
    if w == 0 {
    } else {
        let whole = s.subrange(i, i + w);
        let head = spec_fixed_digits(n / 10, (w - 1) as nat);
        assert(whole == head + seq![spec_digit_char(n % 10)]);
        assert(s.subrange(i, i + w - 1) =~= head) by {
            assert forall|k: int| 0 <= k < w - 1 implies s.subrange(i, i + w - 1)[k] == head[k] by {
                assert(s.subrange(i, i + w - 1)[k] == whole[k]);
            }
        }
        lemma_read_fixed_digits(s, i, n / 10, (w - 1) as nat);
        assert(s[i + w - 1] == whole[w - 1]);
        assert(whole[w - 1] == spec_digit_char(n % 10));
        lemma_digit_roundtrip(n % 10);
        lemma_mod_digit_decomp(n, w);
    }
}

/// A digit run whose value fits the window reads back exactly.
pub proof fn lemma_read_fixed_digits_exact(s: Seq<char>, i: int, n: nat, w: nat)
    requires
        0 <= i,
        i + w <= s.len(),
        s.subrange(i, i + w) == spec_fixed_digits(n, w),
        n < pow10(w),
    ensures
        spec_read_digits(s, i, w) == Some(n),
{
    lemma_read_fixed_digits(s, i, n, w);
    lemma_pow10_monotone(0, w);
    vstd::arithmetic::div_mod::lemma_small_mod(n, pow10(w));
}

/// Once a digit run fails to read, every longer run over it fails too.
pub proof fn lemma_read_digits_none_persists(s: Seq<char>, i: int, w1: nat, w2: nat)
    requires
        w1 <= w2,
        spec_read_digits(s, i, w1) is None,
    ensures
        spec_read_digits(s, i, w2) is None,
    decreases w2,
{
    if w2 > w1 {
        lemma_read_digits_none_persists(s, i, w1, (w2 - 1) as nat);
    }
}

fn digit_char_exec(d: u64) -> (c: char)
    requires
        d < 10,
    ensures
        c == spec_digit_char(d as nat),
{
    if d == 0 {
        '0'
    } else if d == 1 {
        '1'
    } else if d == 2 {
        '2'
    } else if d == 3 {
        '3'
    } else if d == 4 {
        '4'
    } else if d == 5 {
        '5'
    } else if d == 6 {
        '6'
    } else if d == 7 {
        '7'
    } else if d == 8 {
        '8'
    } else {
        '9'
    }
}

fn digit_val_exec(c: char) -> (r: Option<u64>)
    ensures
        match r {
            Some(d) => spec_digit_val(c) == Some(d as nat),
            None => spec_digit_val(c) is None,
        },
{
    if c == '0' {
        Some(0)
    } else if c == '1' {
        Some(1)
    } else if c == '2' {
        Some(2)
    } else if c == '3' {
        Some(3)
    } else if c == '4' {
        Some(4)
    } else if c == '5' {
        Some(5)
    } else if c == '6' {
        Some(6)
    } else if c == '7' {
        Some(7)
    } else if c == '8' {
        Some(8)
    } else if c == '9' {
        Some(9)
    } else {
        None
    }
}

/// Appends the last `w` decimal digits of `n` to `out`, most significant
/// first.
pub fn push_fixed_digits(out: &mut Vec<char>, n: u64, w: usize)
    ensures
        final(out)@ == old(out)@ + spec_fixed_digits(n as nat, w as nat),
    decreases w,
{
    if w == 0 {
        assert(out@ =~= old(out)@ + spec_fixed_digits(n as nat, 0));
    } else {
        push_fixed_digits(out, n / 10, w - 1);
        out.push(digit_char_exec(n % 10));
        assert(out@ =~= old(out)@ + spec_fixed_digits(n as nat, w as nat));
    }
}

/// Reads a `w`-digit run from `s` at `i`; `None` if a character is not a
/// digit.  The window is capped so the value always fits a `u128`.
pub fn read_fixed_digits(s: &Vec<char>, i: usize, w: usize) -> (r: Option<u128>)
    requires
        i + w <= s@.len(),
        w <= 20,
    ensures
        match r {
            Some(v) => spec_read_digits(s@, i as int, w as nat) == Some(v as nat) && v < pow10(
                w as nat,
            ),
            None => spec_read_digits(s@, i as int, w as nat) is None,
        },
{
    let mut acc: u128 = 0;
    let mut j: usize = 0;
    let slen: usize = s.len();
    proof {
        lemma_pow10_20();
        lemma_pow10_monotone(w as nat, 20);
    }
    while j < w
        invariant
            j <= w,
            i + w <= s@.len(),
            slen == s@.len(),
            w <= 20,
            pow10(20) == 100000000000000000000,
            pow10(w as nat) <= pow10(20),
            spec_read_digits(s@, i as int, j as nat) == Some(acc as nat),
            acc < pow10(j as nat),
        decreases w - j,
    {
        proof {
            lemma_pow10_monotone(j as nat, w as nat);
        }
        match digit_val_exec(s[i + j]) {
            Some(d) => {
                assert(acc * 10 + d < pow10((j + 1) as nat) && acc * 10 + d < pow10(20) * 10) by (
                nonlinear_arith)
                    requires
                        acc < pow10(j as nat),
                        d < 10,
                        pow10((j + 1) as nat) == 10 * pow10(j as nat),
                        pow10(j as nat) <= pow10(20),
                ;
                acc = acc * 10 + (d as u128);
            },
            None => {
                proof {
                    lemma_read_digits_none_persists(s@, i as int, (j + 1) as nat, w as nat);
                }
                return None;
            },
        }
        j = j + 1;
        proof {
            lemma_pow10_monotone(j as nat, w as nat);
        }
    }
    Some(acc)
}

/// The decimal digits of `n` without padding, most significant first.
pub open spec fn spec_dec_digits(n: nat) -> Seq<char>
    decreases n,
{
    if n < 10 {
        seq![spec_digit_char(n)]
    } else {
        spec_dec_digits(n / 10) + seq![spec_digit_char(n % 10)]
    }
}

/// A signed integer in its ordinary decimal writing.
pub open spec fn spec_dec_int(v: int) -> Seq<char> {
    if v < 0 {
        seq!['-'] + spec_dec_digits(spec_abs(v))
    } else {
        spec_dec_digits(spec_abs(v))
    }
}

/// Appends the ordinary decimal digits of `n` to `out`.
pub fn push_dec_digits(out: &mut Vec<char>, n: u64)
    ensures
        final(out)@ == old(out)@ + spec_dec_digits(n as nat),
    decreases n,
{
    if n < 10 {
        out.push(digit_char_exec(n));
        assert(out@ =~= old(out)@ + spec_dec_digits(n as nat));
    } else {
        push_dec_digits(out, n / 10);
        out.push(digit_char_exec(n % 10));
        assert(out@ =~= old(out)@ + spec_dec_digits(n as nat));
    }
}

/// Appends `v` in its ordinary decimal writing to `out`.
pub fn push_dec_int(out: &mut Vec<char>, v: i64)
    ensures
        final(out)@ == old(out)@ + spec_dec_int(v as int),
{
    if v >= 0 {
        push_dec_digits(out, v as u64);
    } else {
        out.push('-');
        let m: u64 = ((-(v + 1)) as u64) + 1;
        assert(m as nat == spec_abs(v as int));
        push_dec_digits(out, m);
        assert(out@ =~= old(out)@ + spec_dec_int(v as int));
    }
}

pub open spec fn spec_abs(v: int) -> nat {
    if v >= 0 {
        v as nat
    } else {
        (-v) as nat
    }
}

/// A signed integer: a sign character, then a fixed-width digit run.
pub open spec fn spec_enc_int(v: int) -> Seq<char> {
    (if v < 0 {
        seq!['-']
    } else {
        seq!['+']
    }) + spec_fixed_digits(spec_abs(v), 20)
}

pub open spec fn spec_parse_int(s: Seq<char>, i: int) -> Option<(int, int)> {
    if 0 <= i && i + 21 <= s.len() && (s[i] == '+' || s[i] == '-') {
        match spec_read_digits(s, i + 1, 20) {
            Some(m) => {
                let v = if s[i] == '-' {
                    -(m as int)
                } else {
                    m as int
                };
                if i64::MIN as int <= v <= i64::MAX as int {
                    Some((v, i + 21))
                } else {
                    None
                }
            },
            None => None,
        }
    } else {
        None
    }
}

/// A string: a fixed-width character count, then the characters.
pub open spec fn spec_enc_str(t: Seq<char>) -> Seq<char> {
    spec_fixed_digits(t.len(), 20) + t
}

pub open spec fn spec_parse_str(s: Seq<char>, i: int) -> Option<(Seq<char>, int)> {
    if 0 <= i && i + 20 <= s.len() {
        match spec_read_digits(s, i, 20) {
            Some(l) => if l <= usize::MAX as nat && i + 20 + l <= s.len() {
                Some((s.subrange(i + 20, i + 20 + l), i + 20 + l))
            } else {
                None
            },
            None => None,
        }
    } else {
        None
    }
}

/// A boolean: one character.
pub open spec fn spec_enc_bool(b: bool) -> Seq<char> {
    seq![if b { '1' } else { '0' }]
}

pub open spec fn spec_parse_bool(s: Seq<char>, i: int) -> Option<(bool, int)> {
    if 0 <= i && i + 1 <= s.len() {
        if s[i] == '1' {
            Some((true, i + 1))
        } else if s[i] == '0' {
            Some((false, i + 1))
        } else {
            None
        }
    } else {
        None
    }
}

/// A written integer parses back to itself.
pub proof fn lemma_parse_int_of_enc(s: Seq<char>, i: int, v: int)
    requires
        0 <= i,
        i + 21 <= s.len(),
        s.subrange(i, i + 21) == spec_enc_int(v),
        i64::MIN as int <= v <= i64::MAX as int,
    ensures
        spec_parse_int(s, i) == Some((v, i + 21)),
{
    let whole = s.subrange(i, i + 21);
    let digits = spec_fixed_digits(spec_abs(v), 20);
    let sign_seq = if v < 0 {
        seq!['-']
    } else {
        seq!['+']
    };
    assert(whole == sign_seq + digits);
    assert(sign_seq.len() == 1);
    assert(s[i] == whole[0]);
    assert(s.subrange(i + 1, i + 21) =~= digits) by {
        assert forall|k: int| 0 <= k < 20 implies s.subrange(i + 1, i + 21)[k] == digits[k] by {
            assert(s.subrange(i + 1, i + 21)[k] == whole[k + 1]);
            assert(whole[k + 1] == (sign_seq + digits)[k + 1]);
            assert((sign_seq + digits)[k + 1] == digits[k]);
        }
    }
    lemma_pow10_20();
    lemma_read_fixed_digits_exact(s, i + 1, spec_abs(v), 20);
}

/// A written string parses back to itself.
pub proof fn lemma_parse_str_of_enc(s: Seq<char>, i: int, t: Seq<char>)
    requires
        0 <= i,
        t.len() <= usize::MAX as nat,
        i + 20 + t.len() <= s.len(),
        s.subrange(i, i + 20 + t.len()) == spec_enc_str(t),
    ensures
        spec_parse_str(s, i) == Some((t, i + 20 + t.len())),
{
    let whole = s.subrange(i, i + 20 + t.len());
    let digits = spec_fixed_digits(t.len(), 20);
    assert(whole == digits + t);
    assert(digits.len() == 20) by {
        lemma_fixed_digits_len(t.len(), 20);
    }
    assert(s.subrange(i, i + 20) =~= digits) by {
        assert forall|k: int| 0 <= k < 20 implies s.subrange(i, i + 20)[k] == digits[k] by {
            assert(s.subrange(i, i + 20)[k] == whole[k]);
            assert(whole[k] == (digits + t)[k]);
        }
    }
    lemma_pow10_20();
    vstd::arithmetic::div_mod::lemma_mod_pos_bound(usize::MAX as int, 10);
    lemma_read_fixed_digits_exact(s, i, t.len(), 20);
    assert(s.subrange(i + 20, i + 20 + t.len()) =~= t) by {
        assert forall|k: int| 0 <= k < t.len() implies s.subrange(i + 20, i + 20 + t.len())[k]
            == t[k] by {
            assert(s.subrange(i + 20, i + 20 + t.len())[k] == whole[k + 20]);
            assert(whole[k + 20] == (digits + t)[k + 20]);
            assert((digits + t)[k + 20] == t[k]);
        }
    }
}

/// A fixed digit run has exactly the window's width.
pub proof fn lemma_fixed_digits_len(n: nat, w: nat)
    ensures
        spec_fixed_digits(n, w).len() == w,
    decreases w,
{
    if w > 0 {
        lemma_fixed_digits_len(n / 10, (w - 1) as nat);
    }
}

/// Appends the encoding of `v` to `out`.
pub fn push_int(out: &mut Vec<char>, v: i64)
    ensures
        final(out)@ == old(out)@ + spec_enc_int(v as int),
{
    if v >= 0 {
        out.push('+');
        push_fixed_digits(out, v as u64, 20);
        assert(out@ =~= old(out)@ + spec_enc_int(v as int));
    } else {
        out.push('-');
        let m: u64 = ((-(v + 1)) as u64) + 1;
        assert(m as nat == spec_abs(v as int));
        push_fixed_digits(out, m, 20);
        assert(out@ =~= old(out)@ + spec_enc_int(v as int));
    }
}

/// Reads an encoded integer from `s` at `i`.
pub fn read_int(s: &Vec<char>, i: usize) -> (r: Option<(i64, usize)>)
    ensures
        match r {
            Some((v, j)) => spec_parse_int(s@, i as int) == Some((v as int, j as int)),
            None => spec_parse_int(s@, i as int) is None,
        },
{
    let n = s.len();
    if n < 21 || i > n - 21 {
        return None;
    }
    let sign = s[i];
    if sign != '+' && sign != '-' {
        return None;
    }
    match read_fixed_digits(s, i + 1, 20) {
        Some(m) => {
            if sign == '-' {
                if m == 0 {
                    Some((0i64, i + 21))
                } else if m <= i64::MAX as u128 + 1 {
                    let v: i64 = -((m - 1) as i64) - 1;
                    Some((v, i + 21))
                } else {
                    None
                }
            } else {
                if m <= i64::MAX as u128 {
                    Some((m as i64, i + 21))
                } else {
                    None
                }
            }
        },
        None => None,
    }
}

/// Appends the encoding of the string `t` (given as its characters) to
/// `out`.
pub fn push_str_chars(out: &mut Vec<char>, t: &Vec<char>)
    ensures
        final(out)@ == old(out)@ + spec_enc_str(t@),
        t@.len() <= usize::MAX as nat,
{
    push_fixed_digits(out, t.len() as u64, 20);
    let ghost mid = out@;
    let mut k: usize = 0;
    while k < t.len()
        invariant
            k <= t@.len(),
            out@ == mid + t@.subrange(0, k as int),
        decreases t@.len() - k,
    {
        out.push(t[k]);
        k = k + 1;
        assert(out@ =~= mid + t@.subrange(0, k as int));
    }
    assert(out@ =~= old(out)@ + spec_enc_str(t@));
}

/// Reads an encoded string from `s` at `i`, returning its characters.
pub fn read_str_chars(s: &Vec<char>, i: usize) -> (r: Option<(Vec<char>, usize)>)
    ensures
        match r {
            Some((t, j)) => spec_parse_str(s@, i as int) == Some((t@, j as int)),
            None => spec_parse_str(s@, i as int) is None,
        },
{
    let n = s.len();
    if n < 20 || i > n - 20 {
        return None;
    }
    match read_fixed_digits(s, i, 20) {
        Some(l128) => {
            if l128 > usize::MAX as u128 {
                return None;
            }
            let l = l128 as usize;
            if l > n - (i + 20) {
                return None;
            }
            let mut t: Vec<char> = Vec::new();
            let mut k: usize = 0;
            while k < l
                invariant
                    k <= l,
                    i + 20 + l <= s@.len(),
                    n == s@.len(),
                    t@ == s@.subrange(i + 20, i + 20 + k as int),
                decreases l - k,
            {
                t.push(s[i + 20 + k]);
                k = k + 1;
                assert(t@ =~= s@.subrange(i + 20, i + 20 + k as int));
            }
            Some((t, i + 20 + l))
        },
        None => None,
    }
}

/// Reads an encoded boolean from `s` at `i`.
pub fn read_bool(s: &Vec<char>, i: usize) -> (r: Option<(bool, usize)>)
    ensures
        match r {
            Some((b, j)) => spec_parse_bool(s@, i as int) == Some((b, j as int)),
            None => spec_parse_bool(s@, i as int) is None,
        },
{
    if i >= s.len() {
        return None;
    }
    let c = s[i];
    if c == '1' {
        Some((true, i + 1))
    } else if c == '0' {
        Some((false, i + 1))
    } else {
        None
    }
}

} // verus!
