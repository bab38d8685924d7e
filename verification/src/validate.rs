//! Validation of the textual form of a command's fields.

use vstd::prelude::*;
use vstd::string::StringSliceAdditionalSpecFns;
use crate::command::Speed;

verus! {

/// An ASCII decimal digit.
pub open spec fn is_digit(b: u8) -> bool {
    48 <= b && b <= 57
}

/// The number that a run of decimal digits writes.
pub open spec fn digits_value(s: Seq<u8>) -> nat
    decreases s.len(),
{
    if s.len() == 0 {
        0
    } else {
        digits_value(s.drop_last()) * 10 + (s.last() - 48) as nat
    }
}

/// Where the run of digits that starts at `from` ends.
pub open spec fn digits_end(s: Seq<u8>, from: int) -> int
    decreases s.len() - from,
{
    if 0 <= from < s.len() && is_digit(s[from]) {
        digits_end(s, from + 1)
    } else {
        from
    }
}

/// The duration that a text states: an optional `+`, then one or more digits,
/// with a value that fits 32 bits.
pub open spec fn duration_of(s: Seq<u8>) -> Option<u32> {
    let start: int = if s.len() > 0 && s[0] == 43 {
        1
    } else {
        0
    };
    let value = digits_value(s.subrange(start, s.len() as int));
    if start < s.len() && digits_end(s, start) == s.len() && value <= u32::MAX {
        Some(value as u32)
    } else {
        None
    }
}

proof fn digits_value_step(s: Seq<u8>, start: int, i: int)
    requires
        0 <= start <= i < s.len(),
    ensures
        digits_value(s.subrange(start, i + 1)) == digits_value(s.subrange(start, i)) * 10 + (s[i]
            - 48) as nat,
{
    assert(s.subrange(start, i + 1).drop_last() =~= s.subrange(start, i));
}

/// Reads a duration in milliseconds.
pub fn parse_duration(text: &str) -> (r: Option<u32>)
    ensures
        r == duration_of(text.spec_bytes()),
{
    let b = text.as_bytes();
    let n: usize = b.len();
    let start: usize = if n > 0 && b[0] == 43 {
        1
    } else {
        0
    };
    if start >= n {
        return None;
    }
    let mut i: usize = start;
    let mut value: u64 = 0;
    let mut fits: bool = true;
    while i < n && b[i] >= 48 && b[i] <= 57
        invariant
            start <= i <= n,
            n == b@.len(),
            digits_end(b@, start as int) == digits_end(b@, i as int),
            fits ==> value == digits_value(b@.subrange(start as int, i as int)) && value
                <= u32::MAX,
            !fits ==> digits_value(b@.subrange(start as int, i as int)) > u32::MAX,
        decreases n - i,
    {
        proof {
            digits_value_step(b@, start as int, i as int);
        }
        if fits {
            value = value * 10 + (b[i] - 48) as u64;
            if value > 0xFFFF_FFFF {
                fits = false;
            }
        }
        i += 1;
    }
    proof {
        assert(b@.subrange(start as int, n as int) =~= b@.subrange(start as int, b@.len() as int));
    }
    if i == n && fits {
        Some(value as u32)
    } else {
        None
    }
}

/// Accepts a text that states a duration, and says what is wrong with any other.
pub fn time_validator(time: String) -> (r: Result<(), String>)
    ensures
        r is Ok <==> duration_of(vstd::utf8::encode_utf8(time@)) is Some,
        r is Err ==> r->Err_0@ == "not an unsigned integer"@,
{
    match parse_duration(time.as_str()) {
        Some(_) => Ok(()),
        None => Err("not an unsigned integer".to_owned()),
    }
}

/// Why a text states no speed that a motor can be given.
#[derive(Clone, Copy, Debug, PartialEq, Eq, Structural)]
pub enum SpeedError {
    NotANumber,
    Above,
    Below,
}

/// Decimal places of a speed that are kept: a speed is cut off behind the
/// eighteenth.
pub const FRACTION_DIGITS: usize = 18;

/// The denominator of every speed read from a text.
pub const SPEED_SCALE: u64 = 1_000_000_000_000_000_000;

/// Ten to the power of `k`.
pub open spec fn pow10(k: nat) -> nat
    decreases k,
{
    if k == 0 {
        1
    } else {
        10 * pow10((k - 1) as nat)
    }
}

/// How many bytes the sign takes: one if the text starts with `+` or `-`.
pub open spec fn sign_len(s: Seq<u8>) -> int {
    if s.len() > 0 && (s[0] == 43 || s[0] == 45) {
        1
    } else {
        0
    }
}

/// An ASCII letter in lower case; any other byte as it is.
pub open spec fn lower(b: u8) -> u8 {
    if 65 <= b && b <= 90 {
        (b + 32) as u8
    } else {
        b
    }
}

/// The text is `inf` or `infinity`, in any case.
#[verifier::opaque]
pub open spec fn is_infinity(r: Seq<u8>) -> bool {
    ||| r.len() == 3 && lower(r[0]) == 105 && lower(r[1]) == 110 && lower(r[2]) == 102
    ||| r.len() == 8 && lower(r[0]) == 105 && lower(r[1]) == 110 && lower(r[2]) == 102 && lower(
        r[3],
    ) == 105 && lower(r[4]) == 110 && lower(r[5]) == 105 && lower(r[6]) == 116 && lower(r[7])
        == 121
}

/// Where the decimal point falls among the digits `m`, kept within them.
pub open spec fn point_within(m: Seq<u8>, point: int) -> int {
    if point <= 0 {
        0
    } else if point >= m.len() {
        m.len() as int
    } else {
        point
    }
}

/// The whole part of the number whose digits are `m`, with the decimal
/// point `point` places behind the first of them: the digits before the
/// point, followed by zeros where the point lies beyond the last digit.
pub open spec fn whole_part(m: Seq<u8>, point: int) -> nat {
    digits_value(m.subrange(0, point_within(m, point))) * pow10(
        if point > m.len() {
            (point - m.len()) as nat
        } else {
            0
        },
    )
}

/// The digits behind the decimal point state more than zero.
pub open spec fn has_fraction(m: Seq<u8>, point: int) -> bool {
    digits_value(m.subrange(point_within(m, point), m.len() as int)) > 0
}

/// The digit at the `k`-th decimal place, counted from one.
pub open spec fn place_digit(m: Seq<u8>, point: int, k: int) -> nat {
    let i = point - 1 + k;
    if 0 <= i < m.len() {
        (m[i] - 48) as nat
    } else {
        0
    }
}

/// The number that the first `k` decimal places write.
pub open spec fn kept_fraction(m: Seq<u8>, point: int, k: nat) -> nat
    decreases k,
{
    if k == 0 {
        0
    } else {
        kept_fraction(m, point, (k - 1) as nat) * 10 + place_digit(m, point, k as int)
    }
}

/// The speed that a sign, digits and the place of the decimal point state:
/// the number cut off behind the eighteenth decimal place, unless its
/// magnitude exceeds one, by however little.
#[verifier::opaque]
pub open spec fn decimal_speed(negative: bool, m: Seq<u8>, point: int) -> Result<
    Speed,
    SpeedError,
> {
    let whole = whole_part(m, point);
    if whole == 0 || (whole == 1 && !has_fraction(m, point)) {
        Ok(
            (Speed {
                negative,
                numerator: (whole * SPEED_SCALE + kept_fraction(
                    m,
                    point,
                    FRACTION_DIGITS as nat,
                )) as u64,
                denominator: SPEED_SCALE,
            }),
        )
    } else if negative {
        Err(SpeedError::Below)
    } else {
        Err(SpeedError::Above)
    }
}

/// The speed that a text states. After an optional sign stands `inf` or
/// `infinity` in any case, which is out of range on the side of its sign, or
/// a number: digits with an optional decimal point, at least one digit on
/// one side of it, and optionally `e` or `E`, an optional sign and one or
/// more digits, the power of ten to scale by. Any other text is no number,
/// `nan` among them.
pub open spec fn speed_of(s: Seq<u8>) -> Result<Speed, SpeedError> {
    let start = sign_len(s);
    let negative = start == 1 && s[0] == 45;
    let dot = digits_end(s, start);
    let frac_start = if dot < s.len() && s[dot] == 46 {
        dot + 1
    } else {
        dot
    };
    let frac_end = digits_end(s, frac_start);
    let scaled = frac_end < s.len() && (s[frac_end] == 101 || s[frac_end] == 69);
    let exp_start = if scaled {
        frac_end + 1 + sign_len(s.subrange(frac_end + 1, s.len() as int))
    } else {
        frac_end
    };
    let exp_negative = scaled && frac_end + 1 < s.len() && s[frac_end + 1] == 45;
    let end = digits_end(s, exp_start);
    let mantissa = s.subrange(start, dot) + s.subrange(frac_start, frac_end);
    let magnitude = digits_value(s.subrange(exp_start, end));
    let exponent: int = if exp_negative {
        -magnitude
    } else {
        magnitude as int
    };
    if is_infinity(s.subrange(start, s.len() as int)) {
        if negative {
            Err(SpeedError::Below)
        } else {
            Err(SpeedError::Above)
        }
    } else if end != s.len() || mantissa.len() == 0 || (scaled && end == exp_start) {
        Err(SpeedError::NotANumber)
    } else {
        decimal_speed(negative, mantissa, (dot - start) + exponent)
    }
}

proof fn pow10_increases(a: nat, b: nat)
    requires
        a <= b,
    ensures
        0 < pow10(a) <= pow10(b),
    decreases b,
{
    if a < b {
        pow10_increases(a, (b - 1) as nat);
    } else if a > 0 {
        pow10_increases((a - 1) as nat, (b - 1) as nat);
    }
}

proof fn pow10_of_limit()
    ensures
        pow10(17) == 100_000_000_000_000_000,
        pow10(18) == 1_000_000_000_000_000_000,
{
    reveal_with_fuel(pow10, 20);
}

/// Every byte is a decimal digit.
pub open spec fn all_digits(m: Seq<u8>) -> bool {
    forall|i: int| 0 <= i < m.len() ==> is_digit(#[trigger] m[i])
}

proof fn zero_value_zero_digits(m: Seq<u8>, i: int)
    requires
        all_digits(m),
        digits_value(m) == 0,
        0 <= i < m.len(),
    ensures
        m[i] == 48,
    decreases m.len(),
{
    if i < m.len() - 1 {
        assert(all_digits(m.drop_last()));
        zero_value_zero_digits(m.drop_last(), i);
    }
}

/// No decimal place holds a digit where the point lies at or beyond the last
/// digit, or at least `k` places before the first.
proof fn kept_fraction_empty(m: Seq<u8>, point: int, k: nat)
    requires
        point >= m.len() || point + k <= 0,
    ensures
        kept_fraction(m, point, k) == 0,
    decreases k,
{
    if k > 0 {
        kept_fraction_empty(m, point, (k - 1) as nat);
    }
}

/// Without a fraction every decimal place is zero.
proof fn kept_fraction_zero(m: Seq<u8>, point: int, k: nat)
    requires
        all_digits(m),
        !has_fraction(m, point),
    ensures
        kept_fraction(m, point, k) == 0,
    decreases k,
{
    if k > 0 {
        kept_fraction_zero(m, point, (k - 1) as nat);
        let i = point - 1 + k;
        if 0 <= i < m.len() {
            let from = point_within(m, point);
            let tail = m.subrange(from, m.len() as int);
            assert(all_digits(tail)) by {
                assert forall|j: int| 0 <= j < tail.len() implies is_digit(#[trigger] tail[j]) by {
                    assert(tail[j] == m[from + j]);
                }
            }
            zero_value_zero_digits(tail, i - from);
            assert(tail[i - from] == m[i]);
        }
    }
}

/// Far enough out, where exactly the point lies changes nothing.
proof fn point_far_out(negative: bool, m: Seq<u8>, p: int, q: int)
    requires
        all_digits(m),
        (p > m.len() && q > m.len()) || (p + FRACTION_DIGITS <= 0 && q + FRACTION_DIGITS <= 0),
    ensures
        decimal_speed(negative, m, p) == decimal_speed(negative, m, q),
{
    reveal(decimal_speed);
    kept_fraction_empty(m, p, FRACTION_DIGITS as nat);
    kept_fraction_empty(m, q, FRACTION_DIGITS as nat);
    if p > m.len() {
        let v = digits_value(m.subrange(0, m.len() as int));
        let a = pow10((p - m.len()) as nat);
        let b = pow10((q - m.len()) as nat);
        pow10_increases(1, (p - m.len()) as nat);
        pow10_increases(1, (q - m.len()) as nat);
        reveal_with_fuel(pow10, 2);
        assert(m.subrange(m.len() as int, m.len() as int) =~= Seq::<u8>::empty());
        if v == 0 {
            assert(v * a == 0 && v * b == 0) by (nonlinear_arith)
                requires
                    v == 0,
            ;
        } else {
            assert(v * a >= 10 && v * b >= 10) by (nonlinear_arith)
                requires
                    v >= 1,
                    a >= 10,
                    b >= 10,
            ;
        }
    } else {
        assert(m.subrange(0, 0) =~= Seq::<u8>::empty());
        assert(whole_part(m, p) == 0);
        assert(whole_part(m, q) == 0);
    }
}

fn lower_byte(b: u8) -> (r: u8)
    ensures
        r == lower(b),
{
    if 65 <= b && b <= 90 {
        b + 32
    } else {
        b
    }
}

fn spells_infinity(b: &[u8], start: usize) -> (r: bool)
    requires
        start <= b@.len(),
    ensures
        r == is_infinity(b@.subrange(start as int, b@.len() as int)),
{
    proof {
        reveal(is_infinity);
    }
    let n: usize = b.len();
    let len: usize = n - start;
    if len != 3 && len != 8 {
        return false;
    }
    let short: bool = lower_byte(b[start]) == 105 && lower_byte(b[start + 1]) == 110 && lower_byte(
        b[start + 2],
    ) == 102;
    if len == 3 {
        short
    } else {
        short && lower_byte(b[start + 3]) == 105 && lower_byte(b[start + 4]) == 110 && lower_byte(
            b[start + 5],
        ) == 105 && lower_byte(b[start + 6]) == 116 && lower_byte(b[start + 7]) == 121
    }
}

/// Exponents of this size and beyond all put the point beyond any text.
const EXPONENT_LIMIT: u128 = 0x10_0000_0000_0000_0000_0000_0000;

/// The speed that a sign, digits and the place of the decimal point state.
fn scale_digits(negative: bool, m: &Vec<u8>, point: i128) -> (r: Result<Speed, SpeedError>)
    requires
        all_digits(m@),
        -0x1000_0000_0000_0000_0000_0000_0000 < point < 0x1000_0000_0000_0000_0000_0000_0000,
    ensures
        r == decimal_speed(negative, m@, point as int),
        r is Ok ==> r->Ok_0.wf(),
{
    proof {
        reveal(decimal_speed);
    }
    let len: usize = m.len();
    let within: usize = if point <= 0 {
        0
    } else if point >= len as i128 {
        len
    } else {
        point as usize
    };
    let mut i: usize = 0;
    let mut before: u64 = 0;
    while i < within
        invariant
            0 <= i <= within <= len,
            len == m@.len(),
            all_digits(m@),
            before <= 2,
            before < 2 ==> before == digits_value(m@.subrange(0, i as int)),
            before == 2 ==> digits_value(m@.subrange(0, i as int)) >= 2,
        decreases within - i,
    {
        proof {
            digits_value_step(m@, 0, i as int);
        }
        before = before * 10 + (m[i] - 48) as u64;
        if before > 2 {
            before = 2;
        }
        i += 1;
    }
    let mut j: usize = within;
    let mut fraction: bool = false;
    while j < len
        invariant
            within <= j <= len,
            len == m@.len(),
            all_digits(m@),
            fraction <==> digits_value(m@.subrange(within as int, j as int)) > 0,
        decreases len - j,
    {
        proof {
            digits_value_step(m@, within as int, j as int);
        }
        if m[j] != 48 {
            fraction = true;
        }
        j += 1;
    }
    let whole: u64 = if before == 0 {
        0
    } else if point > len as i128 {
        2
    } else {
        before
    };
    proof {
        let v = digits_value(m@.subrange(0, within as int));
        if point > len as i128 {
            let a = pow10((point - len) as nat);
            pow10_increases(1, (point - len) as nat);
            reveal_with_fuel(pow10, 2);
            if v == 0 {
                assert(v * a == 0) by (nonlinear_arith)
                    requires
                        v == 0,
                ;
            } else {
                assert(v * a >= 10) by (nonlinear_arith)
                    requires
                        v >= 1,
                        a >= 10,
                ;
            }
        } else {
            reveal_with_fuel(pow10, 1);
            assert(v * 1 == v);
        }
        assert(whole == 0 <==> whole_part(m@, point as int) == 0);
        assert(whole == 1 <==> whole_part(m@, point as int) == 1);
        assert(fraction == has_fraction(m@, point as int));
    }
    if whole == 0 || (whole == 1 && !fraction) {
        let mut k: usize = 0;
        let mut kept: u64 = 0;
        let mut scale: u64 = 1;
        while k < FRACTION_DIGITS
            invariant
                0 <= k <= FRACTION_DIGITS,
                -0x1000_0000_0000_0000_0000_0000_0000 < point < 0x1000_0000_0000_0000_0000_0000_0000,
                len == m@.len(),
                all_digits(m@),
                scale == pow10(k as nat),
                kept == kept_fraction(m@, point as int, k as nat),
                kept < scale,
            decreases FRACTION_DIGITS - k,
        {
            proof {
                pow10_increases(k as nat, 17);
                pow10_of_limit();
            }
            let at: i128 = point + k as i128;
            let digit: u64 = if 0 <= at && at < len as i128 {
                (m[at as usize] - 48) as u64
            } else {
                0
            };
            kept = kept * 10 + digit;
            scale = scale * 10;
            k += 1;
        }
        proof {
            pow10_of_limit();
            if whole == 1 {
                kept_fraction_zero(m@, point as int, FRACTION_DIGITS as nat);
            }
            assert(whole * SPEED_SCALE == if whole == 1 {
                SPEED_SCALE as int
            } else {
                0
            });
        }
        Ok(Speed { negative, numerator: whole * SPEED_SCALE + kept, denominator: SPEED_SCALE })
    } else if negative {
        Err(SpeedError::Below)
    } else {
        Err(SpeedError::Above)
    }
}

/// Appends the run of digits that starts at `from` and says where it ends.
fn read_digits(b: &[u8], from: usize, out: &mut Vec<u8>) -> (end: usize)
    requires
        from <= b@.len(),
        all_digits(old(out)@),
    ensures
        end == digits_end(b@, from as int),
        from <= end <= b@.len(),
        final(out)@ == old(out)@ + b@.subrange(from as int, end as int),
        all_digits(final(out)@),
{
    let n: usize = b.len();
    let mut i: usize = from;
    proof {
        assert(out@ =~= old(out)@ + b@.subrange(from as int, i as int));
    }
    while i < n && b[i] >= 48 && b[i] <= 57
        invariant
            from <= i <= n,
            n == b@.len(),
            digits_end(b@, from as int) == digits_end(b@, i as int),
            out@ == old(out)@ + b@.subrange(from as int, i as int),
            all_digits(out@),
        decreases n - i,
    {
        out.push(b[i]);
        i += 1;
        proof {
            assert(out@ =~= old(out)@ + b@.subrange(from as int, i as int));
        }
    }
    i
}

/// Reads the run of digits that starts at `from` as a number, which stops
/// growing at the limit, and says where the run ends.
fn read_magnitude(b: &[u8], from: usize) -> (r: (usize, u128))
    requires
        from <= b@.len(),
    ensures
        r.0 == digits_end(b@, from as int),
        from <= r.0 <= b@.len(),
        r.1 <= EXPONENT_LIMIT,
        r.1 < EXPONENT_LIMIT ==> r.1 == digits_value(b@.subrange(from as int, r.0 as int)),
        r.1 == EXPONENT_LIMIT ==> digits_value(b@.subrange(from as int, r.0 as int))
            >= EXPONENT_LIMIT,
{
    let n: usize = b.len();
    let mut k: usize = from;
    let mut magnitude: u128 = 0;
    while k < n && b[k] >= 48 && b[k] <= 57
        invariant
            from <= k <= n,
            n == b@.len(),
            digits_end(b@, from as int) == digits_end(b@, k as int),
            magnitude <= EXPONENT_LIMIT,
            magnitude < EXPONENT_LIMIT ==> magnitude == digits_value(
                b@.subrange(from as int, k as int),
            ),
            magnitude == EXPONENT_LIMIT ==> digits_value(b@.subrange(from as int, k as int))
                >= EXPONENT_LIMIT,
        decreases n - k,
    {
        proof {
            digits_value_step(b@, from as int, k as int);
        }
        magnitude = magnitude * 10 + (b[k] - 48) as u128;
        if magnitude > EXPONENT_LIMIT {
            magnitude = EXPONENT_LIMIT;
        }
        k += 1;
    }
    (k, magnitude)
}

/// Reads a speed as the number that its text states.
#[verifier::spinoff_prover]
#[verifier::rlimit(60)]
pub fn parse_speed(text: &str) -> (r: Result<Speed, SpeedError>)
    ensures
        r == speed_of(text.spec_bytes()),
        r is Ok ==> r->Ok_0.wf(),
{
    let b = text.as_bytes();
    let n: usize = b.len();
    let start: usize = if n > 0 && (b[0] == 43 || b[0] == 45) {
        1
    } else {
        0
    };
    let negative: bool = start == 1 && b[0] == 45;
    if spells_infinity(b, start) {
        return if negative {
            Err(SpeedError::Below)
        } else {
            Err(SpeedError::Above)
        };
    }
    let mut mantissa: Vec<u8> = Vec::new();
    let dot: usize = read_digits(b, start, &mut mantissa);
    let frac_start: usize = if dot < n && b[dot] == 46 {
        dot + 1
    } else {
        dot
    };
    let frac_end: usize = read_digits(b, frac_start, &mut mantissa);
    proof {
        assert(mantissa@ =~= b@.subrange(start as int, dot as int) + b@.subrange(
            frac_start as int,
            frac_end as int,
        ));
    }
    let scaled: bool = frac_end < n && (b[frac_end] == 101 || b[frac_end] == 69);
    let mut exp_start: usize = frac_end;
    let mut exp_negative: bool = false;
    if scaled {
        exp_start = frac_end + 1;
        proof {
            let rest = b@.subrange(frac_end + 1, n as int);
            assert(rest.len() > 0 ==> rest[0] == b@[frac_end + 1]);
        }
        if exp_start < n && (b[exp_start] == 43 || b[exp_start] == 45) {
            exp_negative = b[exp_start] == 45;
            exp_start = exp_start + 1;
        }
    }
    let (end, magnitude) = read_magnitude(b, exp_start);
    if end != n || mantissa.len() == 0 || (scaled && end == exp_start) {
        return Err(SpeedError::NotANumber);
    }
    let exponent: i128 = if exp_negative {
        -(magnitude as i128)
    } else {
        magnitude as i128
    };
    let point: i128 = (dot - start) as i128 + exponent;
    proof {
        let true_magnitude = digits_value(b@.subrange(exp_start as int, n as int));
        let true_point: int = (dot - start) + if exp_negative {
            -true_magnitude
        } else {
            true_magnitude as int
        };
        if magnitude == EXPONENT_LIMIT {
            point_far_out(negative, mantissa@, true_point, point as int);
        }
    }
    scale_digits(negative, &mantissa, point)
}

impl SpeedError {
    /// What the user is told.
    pub open spec fn spec_message(&self) -> Seq<char> {
        match self {
            SpeedError::NotANumber => "not a number"@,
            SpeedError::Above => "value above 1.0"@,
            SpeedError::Below => "value below -1.0"@,
        }
    }

    /// What the user is told.
    pub fn message(&self) -> (m: String)
        ensures
            m@ == self.spec_message(),
    {
        match self {
            SpeedError::NotANumber => "not a number".to_owned(),
            SpeedError::Above => "value above 1.0".to_owned(),
            SpeedError::Below => "value below -1.0".to_owned(),
        }
    }
}

/// Accepts a text that states a speed within full scale, and says what is
/// wrong with any other.
pub fn speed_check(speed: String) -> (r: Result<(), String>)
    ensures
        r is Ok <==> speed_of(vstd::utf8::encode_utf8(speed@)) is Ok,
        r is Err ==> r->Err_0@ == speed_of(vstd::utf8::encode_utf8(speed@))->Err_0.spec_message(),
{
    match parse_speed(speed.as_str()) {
        Ok(_) => Ok(()),
        Err(e) => Err(e.message()),
    }
}

} // verus!
