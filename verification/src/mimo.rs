use vstd::prelude::*;
use crate::cpx::{Cpx, CpxV, cmul_spec, conj_spec, norm_of};
use crate::scalar::{Real, pi_repr, add_real, mul_real, div_real, sin_real, pow_real, sqrt_real};
use crate::strnum::{dec_spec, dec_of_u64};

verus! {

// The millimetre-wave channel model: a steering vector describes the
// relative phase of the antenna elements for a given angle of arrival,
// under half-wavelength element spacing and a planar geometry; the
// line-of-sight channel gain is the outer product of the receive-side
// steering vector with the conjugated transmit-side one, scaled by the
// complex antenna gain.

/// The angle in radians: `theta * pi / 180`.
pub open spec fn radian_spec(theta: Seq<char>) -> Seq<char> {
    div_real(mul_real(theta, pi_repr()), "180"@)
}

/// The normalised element spacing term: `0.5 * sin(radians)`.
pub open spec fn norm_angle_spec(theta: Seq<char>) -> Seq<char> {
    mul_real("0.5"@, sin_real(radian_spec(theta)))
}

/// The imaginary part of steering-vector entry `n`:
/// `sin(2 * pi * norm_angle * n)`.
pub open spec fn sv_im_spec(theta: Seq<char>, n: nat) -> Seq<char> {
    sin_real(mul_real(mul_real(mul_real("2"@, pi_repr()), norm_angle_spec(theta)), dec_spec(n)))
}

/// Entry `n` of the steering vector for angle `theta` (degrees): entry 0
/// is exactly `1 + 0i`; entry `n >= 1` lies on the imaginary axis.
pub open spec fn sv_entry_spec(theta: Seq<char>, n: nat) -> CpxV {
    if n == 0 {
        CpxV { re: "1"@, im: "0"@ }
    } else {
        CpxV { re: "0"@, im: sv_im_spec(theta, n) }
    }
}

/// Entry `n` of the conjugated (transmit-side) steering vector: entry 0
/// is again exactly `1 + 0i`; every later entry is conjugated.
pub open spec fn sv_entry_conj_spec(theta: Seq<char>, n: nat) -> CpxV {
    if n == 0 {
        CpxV { re: "1"@, im: "0"@ }
    } else {
        conj_spec(sv_entry_spec(theta, n))
    }
}

/// Entry `(i, j)` of the line-of-sight channel gain:
/// `alpha * (sv_r[i] * conj(sv_t[j]))`.
pub open spec fn gain_entry_spec(
    alpha: CpxV,
    theta_t: Seq<char>,
    theta_r: Seq<char>,
    i: nat,
    j: nat,
) -> CpxV {
    cmul_spec(alpha, cmul_spec(sv_entry_spec(theta_r, i), sv_entry_conj_spec(theta_t, j)))
}

/// The whole line-of-sight gain matrix as one value: shape
/// `num_antenna_r x num_antenna_t`, entry `k` of the row-major order
/// being the gain entry of row `k / cols`, column `k % cols`.
pub open spec fn los_gain_spec(
    alpha: CpxV,
    num_antenna_t: nat,
    num_antenna_r: nat,
    theta_t: Seq<char>,
    theta_r: Seq<char>,
) -> ChannelGainV {
    ChannelGainV {
        rows: num_antenna_r,
        cols: num_antenna_t,
        entries: Seq::new(
            num_antenna_r * num_antenna_t,
            |k: int| gain_entry_spec(
                alpha,
                theta_t,
                theta_r,
                (k / (num_antenna_t as int)) as nat,
                (k % (num_antenna_t as int)) as nat,
            ),
        ),
    }
}

/// The mathematical value of a channel-gain matrix: its shape and its
/// entries in row-major order.
pub ghost struct ChannelGainV {
    pub rows: nat,
    pub cols: nat,
    pub entries: Seq<CpxV>,
}

/// A complex matrix of shape `rows x cols`, entries in row-major order.
pub struct ChannelGain {
    rows: usize,
    cols: usize,
    data: Vec<Cpx>,
}

impl View for ChannelGain {
    type V = ChannelGainV;

    closed spec fn view(&self) -> ChannelGainV {
        ChannelGainV {
            rows: self.rows as nat,
            cols: self.cols as nat,
            entries: Seq::new(self.data@.len(), |i: int| self.data@[i]@),
        }
    }
}

/// A well-formed matrix holds exactly one entry per position.
pub open spec fn gain_wf(v: ChannelGainV) -> bool {
    v.entries.len() == v.rows * v.cols
}

impl ChannelGain {
    /// A matrix from its shape and its row-major entries.
    pub fn from_entries(rows: usize, cols: usize, data: Vec<Cpx>) -> (g: ChannelGain)
        requires
            data@.len() == rows * cols,
        ensures
            gain_wf(g@),
            g@.rows == rows,
            g@.cols == cols,
            g@.entries == Seq::new(data@.len(), |i: int| data@[i]@),
    {
        ChannelGain { rows, cols, data }
    }

    /// The number of rows, then the number of columns.
    pub fn shape(&self) -> (s: (usize, usize))
        ensures
            s.0 == self@.rows,
            s.1 == self@.cols,
    {
        (self.rows, self.cols)
    }

    /// The number of entries.
    pub fn len(&self) -> (n: usize)
        ensures
            n == self@.entries.len(),
    {
        self.data.len()
    }

    /// The entry in row `i`, column `j`.
    pub fn entry(&self, i: usize, j: usize) -> (c: &Cpx)
        requires
            gain_wf(self@),
            i < self@.rows,
            j < self@.cols,
        ensures
            c@ == self@.entries[i * self@.cols + j],
    {
        let n = self.data.len();
        proof {
            vstd::arithmetic::mul::lemma_mul_inequality(i as int + 1, self@.rows as int, self@.cols as int);
            vstd::arithmetic::mul::lemma_mul_is_distributive_add_other_way(self@.cols as int, i as int, 1);
            assert(i * self@.cols + j < n);
        }
        &self.data[i * self.cols + j]
    }

    /// A copy holding the same entries.
    pub fn dup(&self) -> (g: ChannelGain)
        ensures
            g@ == self@,
    {
        let mut data: Vec<Cpx> = Vec::new();
        let mut k: usize = 0;
        while k < self.data.len()
            invariant
                k <= self.data@.len(),
                data@.len() == k,
                forall|m: int| 0 <= m < k ==> data@[m]@ == self.data@[m]@,
            decreases self.data@.len() - k,
        {
            data.push(self.data[k].dup());
            k = k + 1;
        }
        let g = ChannelGain { rows: self.rows, cols: self.cols, data };
        proof {
            assert(g@.entries =~= self@.entries);
        }
        g
    }
}

/// The steering vector for angle `theta` (degrees) over `num_antenna`
/// elements.
pub fn steering_vector(theta: &Real, num_antenna: usize) -> (sv: Vec<Cpx>)
    requires
        num_antenna >= 1,
    ensures
        sv@.len() == num_antenna,
        forall|n: int| 0 <= n < num_antenna ==> sv@[n]@ == sv_entry_spec(theta@, n as nat),
{
    let mut sv: Vec<Cpx> = Vec::new();
    sv.push(Cpx::new(Real::from_repr("1"), Real::from_repr("0")));
    let radian = theta.mul(&Real::pi()).div(&Real::from_repr("180"));
    let norm_angle = Real::from_repr("0.5").mul(&radian.sin());
    let mut n: usize = 1;
    while n < num_antenna
        invariant
            1 <= n <= num_antenna,
            norm_angle@ == norm_angle_spec(theta@),
            sv@.len() == n,
            forall|m: int| 0 <= m < n ==> sv@[m]@ == sv_entry_spec(theta@, m as nat),
        decreases num_antenna - n,
    {
        let scaled = Real::from_repr("2").mul(&Real::pi()).mul(&norm_angle).mul(
            &Real { repr: dec_of_u64(n as u64) },
        );
        sv.push(Cpx::new(Real::from_repr("0"), scaled.sin()));
        n = n + 1;
    }
    sv
}

/// The conjugated steering vector used on the transmit side.
pub fn steering_vector_conj(theta: &Real, num_antenna: usize) -> (sv: Vec<Cpx>)
    requires
        num_antenna >= 1,
    ensures
        sv@.len() == num_antenna,
        forall|n: int| 0 <= n < num_antenna ==> sv@[n]@ == sv_entry_conj_spec(theta@, n as nat),
{
    let mut sv: Vec<Cpx> = Vec::new();
    sv.push(Cpx::new(Real::from_repr("1"), Real::from_repr("0")));
    let radian = theta.mul(&Real::pi()).div(&Real::from_repr("180"));
    let norm_angle = Real::from_repr("0.5").mul(&radian.sin());
    let mut n: usize = 1;
    while n < num_antenna
        invariant
            1 <= n <= num_antenna,
            norm_angle@ == norm_angle_spec(theta@),
            sv@.len() == n,
            forall|m: int| 0 <= m < n ==> sv@[m]@ == sv_entry_conj_spec(theta@, m as nat),
        decreases num_antenna - n,
    {
        let scaled = Real::from_repr("2").mul(&Real::pi()).mul(&norm_angle).mul(
            &Real { repr: dec_of_u64(n as u64) },
        );
        sv.push(Cpx::new(Real::from_repr("0"), scaled.sin()).conj());
        n = n + 1;
    }
    sv
}

/// The channel gain over the line-of-sight path only: an
/// `num_antenna_r x num_antenna_t` matrix whose entry `(i, j)` is
/// `alpha * (sv_r[i] * conj(sv_t[j]))`.
pub fn channel_gain_los(
    alpha: &Cpx,
    num_antenna_t: usize,
    num_antenna_r: usize,
    theta_t: &Real,
    theta_r: &Real,
) -> (h: ChannelGain)
    requires
        num_antenna_t >= 1,
        num_antenna_r >= 1,
        num_antenna_r * num_antenna_t <= usize::MAX,
    ensures
        gain_wf(h@),
        h@.rows == num_antenna_r,
        h@.cols == num_antenna_t,
        forall|i: int, j: int|
            0 <= i < num_antenna_r && 0 <= j < num_antenna_t ==> h@.entries[i * num_antenna_t
                + j] == #[trigger] gain_entry_spec(alpha@, theta_t@, theta_r@, i as nat, j as nat),
        h@ == los_gain_spec(alpha@, num_antenna_t as nat, num_antenna_r as nat, theta_t@, theta_r@),
{
    let t = num_antenna_t;
    let sv_t = steering_vector_conj(theta_t, t);
    let sv_r = steering_vector(theta_r, num_antenna_r);
    let mut data: Vec<Cpx> = Vec::new();
    let mut i: usize = 0;
    while i < num_antenna_r
        invariant
            i <= num_antenna_r,
            t == num_antenna_t,
            num_antenna_t >= 1,
            num_antenna_r * num_antenna_t <= usize::MAX,
            sv_t@.len() == num_antenna_t,
            sv_r@.len() == num_antenna_r,
            forall|n: int| 0 <= n < num_antenna_t ==> sv_t@[n]@ == sv_entry_conj_spec(theta_t@, n as nat),
            forall|n: int| 0 <= n < num_antenna_r ==> sv_r@[n]@ == sv_entry_spec(theta_r@, n as nat),
            data@.len() == i * num_antenna_t,
            forall|k: int|
                0 <= k < data@.len() ==> #[trigger] data@[k]@ == gain_entry_spec(
                    alpha@, theta_t@, theta_r@, (k / (num_antenna_t as int)) as nat,
                    (k % (num_antenna_t as int)) as nat),
        decreases num_antenna_r - i,
    {
        proof {
            vstd::arithmetic::mul::lemma_mul_inequality(i as int + 1, num_antenna_r as int, num_antenna_t as int);
            vstd::arithmetic::mul::lemma_mul_is_distributive_add_other_way(num_antenna_t as int, i as int, 1);
        }
        let mut j: usize = 0;
        while j < t
            invariant
                i < num_antenna_r,
                j <= t,
                t == num_antenna_t,
                i * num_antenna_t + num_antenna_t <= usize::MAX,
                sv_t@.len() == num_antenna_t,
                sv_r@.len() == num_antenna_r,
                forall|n: int| 0 <= n < num_antenna_t ==> sv_t@[n]@ == sv_entry_conj_spec(theta_t@, n as nat),
                forall|n: int| 0 <= n < num_antenna_r ==> sv_r@[n]@ == sv_entry_spec(theta_r@, n as nat),
                data@.len() == i * num_antenna_t + j,
                forall|k: int|
                    0 <= k < data@.len() ==> #[trigger] data@[k]@ == gain_entry_spec(
                        alpha@, theta_t@, theta_r@, (k / (num_antenna_t as int)) as nat,
                        (k % (num_antenna_t as int)) as nat),
            decreases t - j,
        {
            data.push(alpha.mul(&sv_r[i].mul(&sv_t[j])));
            proof {
                vstd::arithmetic::div_mod::lemma_fundamental_div_mod_converse(
                    i * num_antenna_t + j, num_antenna_t as int, i as int, j as int);
            }
            j = j + 1;
        }
        i = i + 1;
    }
    let h = ChannelGain { rows: num_antenna_r, cols: num_antenna_t, data };
    proof {
        assert forall|i2: int, j2: int|
            0 <= i2 < num_antenna_r && 0 <= j2 < num_antenna_t implies h@.entries[i2
            * num_antenna_t + j2] == #[trigger] gain_entry_spec(
            alpha@, theta_t@, theta_r@, i2 as nat, j2 as nat) by {
            vstd::arithmetic::mul::lemma_mul_inequality(i2 + 1, num_antenna_r as int, num_antenna_t as int);
            vstd::arithmetic::mul::lemma_mul_is_distributive_add_other_way(num_antenna_t as int, i2, 1);
            vstd::arithmetic::div_mod::lemma_fundamental_div_mod_converse(
                i2 * num_antenna_t + j2, num_antenna_t as int, i2, j2);
        }
        assert(h@.entries =~= los_gain_spec(
            alpha@, num_antenna_t as nat, num_antenna_r as nat, theta_t@, theta_r@).entries);
    }
    h
}

/// The accumulated magnitudes of the entries, summed in order.
pub open spec fn sum_norms(entries: Seq<CpxV>) -> Seq<char>
    decreases entries.len(),
{
    if entries.len() == 0 {
        "0"@
    } else {
        add_real(sum_norms(entries.drop_last()), norm_of(entries.last().re, entries.last().im))
    }
}

/// The matrix norm used by the model: the square root of the sum of the
/// entries' magnitudes (the magnitudes themselves, not their squares).
pub open spec fn norm_fro2_spec(entries: Seq<CpxV>) -> Seq<char> {
    sqrt_real(sum_norms(entries))
}

/// The square root of the summed entry magnitudes of `h`.
pub fn norm_fro2_for_channel_gain(h: ChannelGain) -> (r: Real)
    ensures
        r@ == norm_fro2_spec(h@.entries),
{
    let n = h.len();
    let mut acc = Real::from_repr("0");
    let mut k: usize = 0;
    while k < n
        invariant
            k <= n,
            n == h@.entries.len(),
            acc@ == sum_norms(h@.entries.take(k as int)),
        decreases n - k,
    {
        acc = acc.add(&h.entry_flat(k).norm());
        proof {
            assert(h@.entries.take(k + 1 as int).drop_last() =~= h@.entries.take(k as int));
        }
        k = k + 1;
    }
    proof {
        assert(h@.entries.take(n as int) =~= h@.entries);
    }
    acc.sqrt()
}

/// The free-space path loss after Friis:
/// `gain_t * gain_r * (wavelength / 4 / pi / distance)^2`.
pub open spec fn friis_spec(
    gain_t: Seq<char>,
    gain_r: Seq<char>,
    dis: Seq<char>,
    wavelength: Seq<char>,
) -> Seq<char> {
    mul_real(
        mul_real(gain_t, gain_r),
        pow_real(div_real(div_real(div_real(wavelength, "4"@), pi_repr()), dis), "2"@),
    )
}

/// Friis free-space attenuation between isotropically characterised
/// antennas; the distance must be positive for a meaningful result, a
/// non-positive distance is the caller's responsibility.
pub fn friis_path_loss(gain_t: &Real, gain_r: &Real, dis: &Real, wavelength: &Real) -> (r: Real)
    ensures
        r@ == friis_spec(gain_t@, gain_r@, dis@, wavelength@),
{
    let q = wavelength.div(&Real::from_repr("4")).div(&Real::pi()).div(dis);
    gain_t.mul(gain_r).mul(&q.pow(&Real::from_repr("2")))
}

impl ChannelGain {
    /// The entry at flat row-major position `k`.
    pub fn entry_flat(&self, k: usize) -> (c: &Cpx)
        requires
            k < self@.entries.len(),
        ensures
            c@ == self@.entries[k as int],
    {
        &self.data[k]
    }
}

} // verus!
