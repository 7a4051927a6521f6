use vstd::prelude::*;
use vstd::arithmetic::div_mod::lemma_fundamental_div_mod_converse;
use crate::error::EvalError;

verus! {

/// An exact rational number `num / den`. A well-formed value has `den > 0`;
/// two values whose components are proportional denote the same number.
#[derive(Clone, Copy, Debug, PartialEq, Eq, Structural)]
pub struct Rational {
    pub num: i64,
    pub den: i64,
}

/// `x` fits a machine word.
pub open spec fn fits(x: int) -> bool {
    i64::MIN <= x <= i64::MAX
}

/// The rational `n / d` when both parts fit a machine word, else an arithmetic error.
pub open spec fn make(n: int, d: int) -> Result<Rational, EvalError> {
    if fits(n) && fits(d) {
        Ok(Rational { num: n as i64, den: d as i64 })
    } else {
        Err(EvalError::ArithmeticError)
    }
}

pub open spec fn abs(x: int) -> int {
    if x < 0 { -x } else { x }
}

impl Rational {
    pub open spec fn wf(self) -> bool {
        self.den > 0
    }

    /// The integer `n` as a rational.
    pub fn from_int(n: i64) -> (r: Rational)
        ensures
            r == (Rational { num: n, den: 1 }),
    {
        Rational { num: n, den: 1 }
    }
}

/// `a` and `b` denote the same number.
pub open spec fn same_value(a: Rational, b: Rational) -> bool {
    a.num * b.den == b.num * a.den
}

/// `a` denotes a smaller number than `b`.
pub open spec fn less(a: Rational, b: Rational) -> bool {
    a.num * b.den < b.num * a.den
}

pub open spec fn add_spec(a: Rational, b: Rational) -> Result<Rational, EvalError> {
    if !a.wf() || !b.wf() {
        Err(EvalError::ArithmeticError)
    } else {
        make(a.num * b.den + b.num * a.den, a.den * b.den)
    }
}

pub open spec fn sub_spec(a: Rational, b: Rational) -> Result<Rational, EvalError> {
    if !a.wf() || !b.wf() {
        Err(EvalError::ArithmeticError)
    } else {
        make(a.num * b.den - b.num * a.den, a.den * b.den)
    }
}

pub open spec fn mul_spec(a: Rational, b: Rational) -> Result<Rational, EvalError> {
    if !a.wf() || !b.wf() {
        Err(EvalError::ArithmeticError)
    } else {
        make(a.num * b.num, a.den * b.den)
    }
}

pub open spec fn div_spec(a: Rational, b: Rational) -> Result<Rational, EvalError> {
    if !a.wf() || !b.wf() || b.num == 0 {
        Err(EvalError::ArithmeticError)
    } else if b.num > 0 {
        make(a.num * b.den, a.den * b.num)
    } else {
        make(-(a.num * b.den), -(a.den * b.num))
    }
}

/// The quotient `x / y` rounded toward zero.
pub open spec fn trunc_div(x: int, y: int) -> int {
    if (x >= 0) == (y > 0) {
        abs(x) / abs(y)
    } else {
        -(abs(x) / abs(y))
    }
}

/// The remainder `a - b * q` where `q` is `a / b` rounded toward zero.
pub open spec fn rem_spec(a: Rational, b: Rational) -> Result<Rational, EvalError> {
    if !a.wf() || !b.wf() || b.num == 0 {
        Err(EvalError::ArithmeticError)
    } else {
        let q = trunc_div(a.num * b.den, a.den * b.num);
        if !fits(q) {
            Err(EvalError::ArithmeticError)
        } else {
            match mul_spec(b, Rational { num: q as i64, den: 1 }) {
                Ok(m) => sub_spec(a, m),
                Err(e) => Err(e),
            }
        }
    }
}

/// `r` is a whole number.
pub open spec fn is_int(r: Rational) -> bool {
    r.wf() && abs(r.num as int) % (r.den as int) == 0
}

/// The largest whole number not above `r`.
pub open spec fn floor_spec(r: Rational) -> Result<Rational, EvalError> {
    if !r.wf() {
        Err(EvalError::ArithmeticError)
    } else {
        make((r.num as int) / (r.den as int), 1)
    }
}

/// The smallest whole number not below `r`.
pub open spec fn ceil_spec(r: Rational) -> Result<Rational, EvalError> {
    if !r.wf() {
        Err(EvalError::ArithmeticError)
    } else {
        make(-((-(r.num as int)) / (r.den as int)), 1)
    }
}

/// The nearest whole number to `r`, halves rounded away from zero.
pub open spec fn round_spec(r: Rational) -> Result<Rational, EvalError> {
    if !r.wf() {
        Err(EvalError::ArithmeticError)
    } else {
        if r.num >= 0 {
        make((2 * r.num + r.den) / (2 * (r.den as int)), 1)
    } else {
        make(-((-2 * r.num + r.den) / (2 * (r.den as int))), 1)
    }
    }
}

/// `a` multiplied by itself `k` times.
pub open spec fn power(a: Rational, k: nat) -> Result<Rational, EvalError>
    decreases k,
{
    if k == 0 {
        Ok(Rational { num: 1, den: 1 })
    } else {
        match power(a, (k - 1) as nat) {
            Ok(p) => mul_spec(p, a),
            Err(e) => Err(e),
        }
    }
}

/// The largest magnitude of an exponent that `pow_spec` accepts.
pub const MAX_EXPONENT: i64 = 64;

/// `a` raised to the whole exponent `b`; a fractional exponent, or one beyond
/// `MAX_EXPONENT` in magnitude, gives no exact result.
pub open spec fn pow_spec(a: Rational, b: Rational) -> Result<Rational, EvalError> {
    if !a.wf() || !is_int(b) {
        Err(EvalError::ArithmeticError)
    } else {
        let e = (b.num as int) / (b.den as int);
        if e > MAX_EXPONENT || e < -MAX_EXPONENT {
            Err(EvalError::ArithmeticError)
        } else if e >= 0 {
            power(a, e as nat)
        } else {
            match power(a, (-e) as nat) {
                Ok(p) => div_spec(Rational { num: 1, den: 1 }, p),
                Err(e) => Err(e),
            }
        }
    }
}

pub open spec fn wf_result(r: Result<Rational, EvalError>) -> bool {
    r matches Ok(x) ==> x.wf()
}

proof fn lemma_mul_bound(x: int, y: int)
    requires
        fits(x),
        fits(y),
    ensures
        -0x4000_0000_0000_0000_0000_0000_0000_0000 <= x * y <= 0x4000_0000_0000_0000_0000_0000_0000_0000,
        y > 0 ==> -0x3fff_ffff_ffff_ffff_8000_0000_0000_0000 <= x * y
            <= 0x3fff_ffff_ffff_ffff_8000_0000_0000_0000,
{
    assert(abs(x) <= 0x8000_0000_0000_0000);
    assert(abs(y) <= 0x8000_0000_0000_0000);
    assert(abs(x) * abs(y) <= 0x8000_0000_0000_0000 * 0x8000_0000_0000_0000) by (nonlinear_arith)
        requires
            0 <= abs(x) <= 0x8000_0000_0000_0000,
            0 <= abs(y) <= 0x8000_0000_0000_0000,
    ;
    if y > 0 {
        assert(abs(x) * abs(y) <= 0x8000_0000_0000_0000 * 0x7fff_ffff_ffff_ffff) by (nonlinear_arith)
            requires
                0 <= abs(x) <= 0x8000_0000_0000_0000,
                0 <= abs(y) <= 0x7fff_ffff_ffff_ffff,
        ;
    }
    assert(abs(x * y) == abs(x) * abs(y)) by (nonlinear_arith)
        requires
            abs(x) == (if x < 0 { -x } else { x }),
            abs(y) == (if y < 0 { -y } else { y }),
            abs(x * y) == (if x * y < 0 { -(x * y) } else { x * y }),
    ;
}

proof fn lemma_pos_mul(x: int, y: int)
    requires
        x > 0,
        y > 0,
    ensures
        x * y > 0,
{
    assert(x * y > 0) by (nonlinear_arith)
        requires
            x > 0,
            y > 0,
    ;
}

/// Builds `n / d` from wide parts, failing when either does not fit.
fn make_exec(n: i128, d: i128) -> (r: Result<Rational, EvalError>)
    ensures
        r == make(n as int, d as int),
{
    if i64::MIN as i128 <= n && n <= i64::MAX as i128 && i64::MIN as i128 <= d && d
        <= i64::MAX as i128 {
        Ok(Rational { num: n as i64, den: d as i64 })
    } else {
        Err(EvalError::ArithmeticError)
    }
}

/// The exact product of two machine words.
fn wide_mul(x: i64, y: i64) -> (r: i128)
    ensures
        r == x as int * y as int,
        -0x4000_0000_0000_0000_0000_0000_0000_0000 <= r <= 0x4000_0000_0000_0000_0000_0000_0000_0000,
        y > 0 ==> -0x3fff_ffff_ffff_ffff_8000_0000_0000_0000 <= r
            <= 0x3fff_ffff_ffff_ffff_8000_0000_0000_0000,
{
    proof {
        lemma_mul_bound(x as int, y as int);
    }
    x as i128 * y as i128
}

pub fn rat_add(a: Rational, b: Rational) -> (r: Result<Rational, EvalError>)
    ensures
        r == add_spec(a, b),
        wf_result(r),
{
    if a.den <= 0 || b.den <= 0 {
        return Err(EvalError::ArithmeticError);
    }
    proof {
        lemma_pos_mul(a.den as int, b.den as int);
    }
    make_exec(wide_mul(a.num, b.den) + wide_mul(b.num, a.den), wide_mul(a.den, b.den))
}

pub fn rat_sub(a: Rational, b: Rational) -> (r: Result<Rational, EvalError>)
    ensures
        r == sub_spec(a, b),
        wf_result(r),
{
    if a.den <= 0 || b.den <= 0 {
        return Err(EvalError::ArithmeticError);
    }
    proof {
        lemma_pos_mul(a.den as int, b.den as int);
    }
    make_exec(wide_mul(a.num, b.den) - wide_mul(b.num, a.den), wide_mul(a.den, b.den))
}

pub fn rat_mul(a: Rational, b: Rational) -> (r: Result<Rational, EvalError>)
    ensures
        r == mul_spec(a, b),
        wf_result(r),
{
    if a.den <= 0 || b.den <= 0 {
        return Err(EvalError::ArithmeticError);
    }
    proof {
        lemma_pos_mul(a.den as int, b.den as int);
    }
    make_exec(wide_mul(a.num, b.num), wide_mul(a.den, b.den))
}

pub fn rat_div(a: Rational, b: Rational) -> (r: Result<Rational, EvalError>)
    ensures
        r == div_spec(a, b),
        wf_result(r),
{
    if a.den <= 0 || b.den <= 0 {
        return Err(EvalError::ArithmeticError);
    }
    if b.num == 0 {
        Err(EvalError::ArithmeticError)
    } else if b.num > 0 {
        proof {
            lemma_pos_mul(a.den as int, b.num as int);
        }
        make_exec(wide_mul(a.num, b.den), wide_mul(a.den, b.num))
    } else {
        proof {
            lemma_pos_mul(a.den as int, -b.num);
            assert(a.den * (-b.num) == -(a.den * b.num)) by (nonlinear_arith);
        }
        make_exec(-wide_mul(a.num, b.den), -wide_mul(a.den, b.num))
    }
}

/// `|x|` for a wide value well inside range.
fn wide_abs(x: i128) -> (r: u128)
    requires
        -0x4000_0000_0000_0000_0000_0000_0000_0000 <= x <= 0x4000_0000_0000_0000_0000_0000_0000_0000,
    ensures
        r == abs(x as int),
{
    if x < 0 {
        (-x) as u128
    } else {
        x as u128
    }
}

pub fn rat_rem(a: Rational, b: Rational) -> (r: Result<Rational, EvalError>)
    ensures
        r == rem_spec(a, b),
        wf_result(r),
{
    if a.den <= 0 || b.den <= 0 {
        return Err(EvalError::ArithmeticError);
    }
    if b.num == 0 {
        return Err(EvalError::ArithmeticError);
    }
    let x = wide_mul(a.num, b.den);
    let y = wide_mul(a.den, b.num);
    assert(y != 0) by (nonlinear_arith)
        requires
            y == a.den * b.num,
            a.den > 0,
            b.num != 0,
    ;
    let ax = wide_abs(x);
    let ay = wide_abs(y);
    let aq = ax / ay;
    assert(aq <= ax) by (nonlinear_arith)
        requires
            aq == ax / ay,
            ay > 0,
    ;
    let q: i128 = if (x >= 0) == (y > 0) {
        aq as i128
    } else {
        -(aq as i128)
    };
    if q < i64::MIN as i128 || q > i64::MAX as i128 {
        return Err(EvalError::ArithmeticError);
    }
    match rat_mul(b, Rational::from_int(q as i64)) {
        Ok(m) => rat_sub(a, m),
        Err(e) => Err(e),
    }
}

pub fn is_integer(r: Rational) -> (b: bool)
    ensures
        b == is_int(r),
{
    if r.den <= 0 {
        return false;
    }
    let n = wide_abs(r.num as i128);
    n % (r.den as u128) == 0
}

/// For `m > 0` and `d > 0`: `(-m) / d == -((m + d - 1) / d)`.
proof fn lemma_neg_div(m: int, d: int)
    requires
        m > 0,
        d > 0,
    ensures
        (-m) / d == -((m + d - 1) / d),
{
    let q = (m + d - 1) / d;
    let s = (m + d - 1) % d;
    vstd::arithmetic::div_mod::lemma_fundamental_div_mod(m + d - 1, d);
    assert(m + d - 1 == d * q + s);
    assert(-m == (-q) * d + (d - 1 - s)) by (nonlinear_arith)
        requires
            m + d - 1 == d * q + s,
    ;
    lemma_fundamental_div_mod_converse(-m, d, -q, d - 1 - s);
}

pub fn rat_floor(r: Rational) -> (f: Result<Rational, EvalError>)
    ensures
        f == floor_spec(r),
        wf_result(f),
{
    if r.den <= 0 {
        return Err(EvalError::ArithmeticError);
    }
    if r.num >= 0 {
        make_exec((r.num as u64 / r.den as u64) as i128, 1)
    } else {
        let m = -(r.num as i128);
        let q = ((m + r.den as i128 - 1) as u128 / r.den as u128) as i128;
        proof {
            lemma_neg_div(m as int, r.den as int);
        }
        make_exec(-q, 1)
    }
}

pub fn rat_ceil(r: Rational) -> (f: Result<Rational, EvalError>)
    ensures
        f == ceil_spec(r),
        wf_result(f),
{
    if r.den <= 0 {
        return Err(EvalError::ArithmeticError);
    }
    if r.num <= 0 {
        let m = -(r.num as i128);
        make_exec(-((m as u128 / r.den as u128) as i128), 1)
    } else {
        let q = ((r.num as i128 + r.den as i128 - 1) as u128 / r.den as u128) as i128;
        proof {
            lemma_neg_div(r.num as int, r.den as int);
        }
        make_exec(q, 1)
    }
}

pub fn rat_round(r: Rational) -> (f: Result<Rational, EvalError>)
    ensures
        f == round_spec(r),
        wf_result(f),
{
    if r.den <= 0 {
        return Err(EvalError::ArithmeticError);
    }
    let two_d = 2 * (r.den as u128);
    if r.num >= 0 {
        let q = ((2 * (r.num as u128) + r.den as u128) / two_d) as i128;
        make_exec(q, 1)
    } else {
        let m = -(r.num as i128);
        let q = ((2 * (m as u128) + r.den as u128) / two_d) as i128;
        make_exec(-q, 1)
    }
}

pub fn rat_lt(a: Rational, b: Rational) -> (r: bool)
    ensures
        r == less(a, b),
{
    wide_mul(a.num, b.den) < wide_mul(b.num, a.den)
}

pub fn rat_eq(a: Rational, b: Rational) -> (r: bool)
    ensures
        r == same_value(a, b),
{
    wide_mul(a.num, b.den) == wide_mul(b.num, a.den)
}

proof fn lemma_power_wf(a: Rational, k: nat)
    requires
        a.wf(),
    ensures
        wf_result(power(a, k)),
    decreases k,
{
    if k > 0 {
        lemma_power_wf(a, (k - 1) as nat);
        if let Ok(p) = power(a, (k - 1) as nat) {
            lemma_pos_mul(p.den as int, a.den as int);
        }
    }
}

/// `a` multiplied by itself `k` times.
fn power_exec(a: Rational, k: u64) -> (r: Result<Rational, EvalError>)
    requires
        a.wf(),
    ensures
        r == power(a, k as nat),
        wf_result(r),
{
    let mut p = Rational::from_int(1);
    let mut i: u64 = 0;
    while i < k
        invariant
            a.wf(),
            i <= k,
            power(a, i as nat) == Ok::<Rational, EvalError>(p),
            p.wf(),
        decreases k - i,
    {
        match rat_mul(p, a) {
            Ok(q) => {
                p = q;
                i = i + 1;
            },
            Err(e) => {
                proof {
                    lemma_power_err(a, (i + 1) as nat, k as nat);
                }
                return Err(e);
            },
        }
    }
    Ok(p)
}

/// Once a power overflows, every higher power does.
proof fn lemma_power_err(a: Rational, i: nat, k: nat)
    requires
        i <= k,
        power(a, i) == Err::<Rational, EvalError>(EvalError::ArithmeticError),
    ensures
        power(a, k) == Err::<Rational, EvalError>(EvalError::ArithmeticError),
    decreases k - i,
{
    if i < k {
        lemma_power_err(a, i + 1, k);
    }
}

pub fn rat_pow(a: Rational, b: Rational) -> (r: Result<Rational, EvalError>)
    ensures
        r == pow_spec(a, b),
        wf_result(r),
{
    if a.den <= 0 || b.den <= 0 {
        return Err(EvalError::ArithmeticError);
    }
    if !is_integer(b) {
        return Err(EvalError::ArithmeticError);
    }
    let e = match rat_floor(b) {
        Ok(f) => f.num,
        Err(err) => {
            return Err(err);
        },
    };
    if e > MAX_EXPONENT || e < -MAX_EXPONENT {
        return Err(EvalError::ArithmeticError);
    }
    if e >= 0 {
        power_exec(a, e as u64)
    } else {
        match power_exec(a, (-e) as u64) {
            Ok(p) => rat_div(Rational::from_int(1), p),
            Err(err) => Err(err),
        }
    }
}

} // verus!
