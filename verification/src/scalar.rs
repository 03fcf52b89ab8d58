use vstd::prelude::*;

verus! {

// Every scalar of the simulation is an IEEE-754 double, carried by the
// decimal form that denotes it (`{:?}` of a double is the shortest form
// that round-trips to the same double).  The arithmetic itself is done by
// outside code behind the trusted operations below; each operation's
// result is named by an uninterpreted spec function of the operands'
// text, so contracts can state results exactly without restating IEEE
// arithmetic.

/// The double denoted by `a`, added to the double denoted by `b`.
pub uninterp spec fn add_real(a: Seq<char>, b: Seq<char>) -> Seq<char>;

/// IEEE difference of the denoted doubles.
pub uninterp spec fn sub_real(a: Seq<char>, b: Seq<char>) -> Seq<char>;

/// IEEE product of the denoted doubles.
pub uninterp spec fn mul_real(a: Seq<char>, b: Seq<char>) -> Seq<char>;

/// IEEE quotient of the denoted doubles.
pub uninterp spec fn div_real(a: Seq<char>, b: Seq<char>) -> Seq<char>;

/// The denoted double, negated.
pub uninterp spec fn neg_real(a: Seq<char>) -> Seq<char>;

/// Absolute value of the denoted double.
pub uninterp spec fn abs_real(a: Seq<char>) -> Seq<char>;

/// Square root of the denoted double.
pub uninterp spec fn sqrt_real(a: Seq<char>) -> Seq<char>;

/// Sine of the denoted double (radians).
pub uninterp spec fn sin_real(a: Seq<char>) -> Seq<char>;

/// Four-quadrant arc tangent of the denoted doubles, in radians.
pub uninterp spec fn atan2_real(y: Seq<char>, x: Seq<char>) -> Seq<char>;

/// The first denoted double raised to the second.
pub uninterp spec fn pow_real(b: Seq<char>, e: Seq<char>) -> Seq<char>;

/// The bit pattern of the denoted double.  For the non-negative doubles
/// this library compares (distances and folded angles), unsigned order of
/// bit patterns coincides with numeric order.
pub uninterp spec fn bits_of(a: Seq<char>) -> u64;

/// The denoted double truncated toward zero into a usize (saturating).
pub uninterp spec fn trunc_usize_of(a: Seq<char>) -> usize;

/// The decimal form of the double nearest to the circle constant.
pub open spec fn pi_repr() -> Seq<char> {
    "3.141592653589793"@
}

/// A real number of the simulation: an IEEE-754 double carried by a
/// decimal form that denotes it.
pub struct Real {
    pub repr: String,
}

impl View for Real {
    type V = Seq<char>;

    open spec fn view(&self) -> Seq<char> {
        self.repr@
    }
}

impl Real {
    /// Wraps a decimal form, as written.  A string that is no decimal
    /// form of a double is read as zero by the operations below.
    pub fn from_repr(s: &str) -> (r: Real)
        ensures
            r@ == s@,
    {
        Real { repr: s.to_owned() }
    }

    /// The double nearest to the circle constant.
    pub fn pi() -> (r: Real)
        ensures
            r@ == pi_repr(),
    {
        Real::from_repr("3.141592653589793")
    }

    /// A copy holding the same text.
    pub fn dup(&self) -> (r: Real)
        ensures
            r@ == self@,
    {
        Real { repr: self.repr.clone() }
    }

    pub fn add(&self, other: &Real) -> (r: Real)
        ensures
            r@ == add_real(self@, other@),
    {
        real_add(self, other)
    }

    pub fn sub(&self, other: &Real) -> (r: Real)
        ensures
            r@ == sub_real(self@, other@),
    {
        real_sub(self, other)
    }

    pub fn mul(&self, other: &Real) -> (r: Real)
        ensures
            r@ == mul_real(self@, other@),
    {
        real_mul(self, other)
    }

    pub fn div(&self, other: &Real) -> (r: Real)
        ensures
            r@ == div_real(self@, other@),
    {
        real_div(self, other)
    }

    pub fn neg(&self) -> (r: Real)
        ensures
            r@ == neg_real(self@),
    {
        real_neg(self)
    }

    pub fn abs(&self) -> (r: Real)
        ensures
            r@ == abs_real(self@),
    {
        real_abs(self)
    }

    pub fn sqrt(&self) -> (r: Real)
        ensures
            r@ == sqrt_real(self@),
    {
        real_sqrt(self)
    }

    pub fn sin(&self) -> (r: Real)
        ensures
            r@ == sin_real(self@),
    {
        real_sin(self)
    }

    pub fn atan2(&self, x: &Real) -> (r: Real)
        ensures
            r@ == atan2_real(self@, x@),
    {
        real_atan2(self, x)
    }

    pub fn pow(&self, e: &Real) -> (r: Real)
        ensures
            r@ == pow_real(self@, e@),
    {
        real_pow(self, e)
    }

    /// The bit pattern of the denoted double.
    pub fn bits(&self) -> (r: u64)
        ensures
            r == bits_of(self@),
    {
        real_bits(self)
    }

    /// Truncation toward zero into a usize.
    pub fn trunc_usize(&self) -> (r: usize)
        ensures
            r == trunc_usize_of(self@),
    {
        real_trunc_usize(self)
    }
}

/// Relies on num_complex's `Complex` addition, which adds the components
/// with IEEE-754 double addition; the operands are parsed as complex
/// numbers on the real line and the real component is kept.
#[verifier::external_body]
fn real_add(a: &Real, b: &Real) -> (r: Real)
    ensures
        r@ == add_real(a@, b@),
{
    let x: num::complex::Complex64 = a.repr.parse().unwrap_or_default();
    let y: num::complex::Complex64 = b.repr.parse().unwrap_or_default();
    Real { repr: format!("{:?}", (x + y).re) }
}

/// Relies on num_complex's `Complex` subtraction, componentwise IEEE-754
/// double subtraction, applied on the real line.
#[verifier::external_body]
fn real_sub(a: &Real, b: &Real) -> (r: Real)
    ensures
        r@ == sub_real(a@, b@),
{
    let x: num::complex::Complex64 = a.repr.parse().unwrap_or_default();
    let y: num::complex::Complex64 = b.repr.parse().unwrap_or_default();
    Real { repr: format!("{:?}", (x - y).re) }
}

/// Relies on num_complex's `Complex` multiplication: its real component is
/// `a.re * b.re - a.im * b.im`; with zero imaginary parts that is the
/// IEEE-754 double product of the real components.
#[verifier::external_body]
fn real_mul(a: &Real, b: &Real) -> (r: Real)
    ensures
        r@ == mul_real(a@, b@),
{
    let x: num::complex::Complex64 = a.repr.parse().unwrap_or_default();
    let y: num::complex::Complex64 = b.repr.parse().unwrap_or_default();
    Real { repr: format!("{:?}", (x * y).re) }
}

/// Relies on num_complex's parsing of the operands onto the real line
/// and on IEEE-754 double division (the `/` operator) of the real
/// components.
#[verifier::external_body]
fn real_div(a: &Real, b: &Real) -> (r: Real)
    ensures
        r@ == div_real(a@, b@),
{
    let x: num::complex::Complex64 = a.repr.parse().unwrap_or_default();
    let y: num::complex::Complex64 = b.repr.parse().unwrap_or_default();
    Real { repr: format!("{:?}", x.re / y.re) }
}

/// Relies on num_complex's `Complex` negation, componentwise IEEE-754
/// double negation, applied on the real line.
#[verifier::external_body]
fn real_neg(a: &Real) -> (r: Real)
    ensures
        r@ == neg_real(a@),
{
    let x: num::complex::Complex64 = a.repr.parse().unwrap_or_default();
    Real { repr: format!("{:?}", (-x).re) }
}

/// Relies on libm::fabs: the absolute value of the parsed operand.
#[verifier::external_body]
fn real_abs(a: &Real) -> (r: Real)
    ensures
        r@ == abs_real(a@),
{
    Real { repr: format!("{:?}", libm::fabs(a.repr.parse().unwrap_or_default())) }
}

/// Relies on libm::sqrt: the correctly rounded square root of the parsed
/// operand.
#[verifier::external_body]
fn real_sqrt(a: &Real) -> (r: Real)
    ensures
        r@ == sqrt_real(a@),
{
    Real { repr: format!("{:?}", libm::sqrt(a.repr.parse().unwrap_or_default())) }
}

/// Relies on libm::sin: the sine of the parsed operand, in radians.
#[verifier::external_body]
fn real_sin(a: &Real) -> (r: Real)
    ensures
        r@ == sin_real(a@),
{
    Real { repr: format!("{:?}", libm::sin(a.repr.parse().unwrap_or_default())) }
}

/// Relies on libm::atan2: the four-quadrant arc tangent of the parsed
/// operands, in radians.
#[verifier::external_body]
fn real_atan2(y: &Real, x: &Real) -> (r: Real)
    ensures
        r@ == atan2_real(y@, x@),
{
    let yv = y.repr.parse().unwrap_or_default();
    let xv = x.repr.parse().unwrap_or_default();
    Real { repr: format!("{:?}", libm::atan2(yv, xv)) }
}

/// Relies on libm::pow: the first parsed operand raised to the second.
#[verifier::external_body]
fn real_pow(b: &Real, e: &Real) -> (r: Real)
    ensures
        r@ == pow_real(b@, e@),
{
    let bv = b.repr.parse().unwrap_or_default();
    let ev = e.repr.parse().unwrap_or_default();
    Real { repr: format!("{:?}", libm::pow(bv, ev)) }
}

/// Relies on num_complex's parsing of the operand onto the real line and
/// on `f64::to_bits`: the bit pattern of the denoted double.
#[verifier::external_body]
fn real_bits(a: &Real) -> (r: u64)
    ensures
        r == bits_of(a@),
{
    let x: num::complex::Complex64 = a.repr.parse().unwrap_or_default();
    x.re.to_bits()
}

/// Relies on num_complex's parsing of the operand onto the real line and
/// on Rust's double-to-usize `as` cast: truncation toward zero,
/// saturating at the usize range.
#[verifier::external_body]
fn real_trunc_usize(a: &Real) -> (r: usize)
    ensures
        r == trunc_usize_of(a@),
{
    let x: num::complex::Complex64 = a.repr.parse().unwrap_or_default();
    x.re as usize
}

} // verus!
