use vstd::prelude::*;
use crate::scalar::{Real, add_real, sub_real, mul_real, neg_real};

verus! {

/// The mathematical value of a complex number: the decimal forms of its
/// real and imaginary components.
pub ghost struct CpxV {
    pub re: Seq<char>,
    pub im: Seq<char>,
}

/// A complex number; each component is a double carried by its decimal
/// form.
pub struct Cpx {
    pub re: Real,
    pub im: Real,
}

impl View for Cpx {
    type V = CpxV;

    open spec fn view(&self) -> CpxV {
        CpxV { re: self.re@, im: self.im@ }
    }
}

/// The magnitude of the complex number with the given components.
pub uninterp spec fn norm_of(re: Seq<char>, im: Seq<char>) -> Seq<char>;

/// The real component of the complex product: `a.re*b.re - a.im*b.im`.
pub open spec fn cmul_re_spec(a: CpxV, b: CpxV) -> Seq<char> {
    sub_real(mul_real(a.re, b.re), mul_real(a.im, b.im))
}

/// The imaginary component of the complex product: `a.re*b.im + a.im*b.re`.
pub open spec fn cmul_im_spec(a: CpxV, b: CpxV) -> Seq<char> {
    add_real(mul_real(a.re, b.im), mul_real(a.im, b.re))
}

/// The complex product of `a` and `b`.
pub open spec fn cmul_spec(a: CpxV, b: CpxV) -> CpxV {
    CpxV { re: cmul_re_spec(a, b), im: cmul_im_spec(a, b) }
}

/// The complex conjugate of `a`.
pub open spec fn conj_spec(a: CpxV) -> CpxV {
    CpxV { re: a.re, im: neg_real(a.im) }
}

impl Cpx {
    pub fn new(re: Real, im: Real) -> (c: Cpx)
        ensures
            c@ == (CpxV { re: re@, im: im@ }),
    {
        Cpx { re, im }
    }

    /// A copy holding the same components.
    pub fn dup(&self) -> (c: Cpx)
        ensures
            c@ == self@,
    {
        Cpx { re: self.re.dup(), im: self.im.dup() }
    }

    /// The complex product, written out over the carried components as
    /// num_complex defines it.
    pub fn mul(&self, other: &Cpx) -> (c: Cpx)
        ensures
            c@ == cmul_spec(self@, other@),
    {
        let re = self.re.mul(&other.re).sub(&self.im.mul(&other.im));
        let im = self.re.mul(&other.im).add(&self.im.mul(&other.re));
        Cpx { re, im }
    }

    /// The complex conjugate.
    pub fn conj(&self) -> (c: Cpx)
        ensures
            c@ == conj_spec(self@),
    {
        Cpx { re: self.re.dup(), im: self.im.neg() }
    }

    /// The magnitude.
    pub fn norm(&self) -> (r: Real)
        ensures
            r@ == norm_of(self@.re, self@.im),
    {
        cpx_norm(self)
    }
}

/// Relies on num_complex's `Complex::norm`: the hypotenuse of the two
/// components, as the platform's math library rounds it.
#[verifier::external_body]
fn cpx_norm(c: &Cpx) -> (r: Real)
    ensures
        r@ == norm_of(c@.re, c@.im),
{
    let re = c.re.repr.parse().unwrap_or_default();
    let im = c.im.repr.parse().unwrap_or_default();
    Real { repr: format!("{:?}", num::complex::Complex64::new(re, im).norm()) }
}

} // verus!
