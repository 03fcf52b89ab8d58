use vstd::prelude::*;
use vstd::string::StringExecFns;
use crate::scalar::{Real, pi_repr, add_real, sub_real, mul_real, div_real, abs_real, sqrt_real, atan2_real, pow_real, bits_of};

verus! {

/// The mathematical value of a point: the decimal forms of its three
/// coordinates.
pub ghost struct PointV {
    pub x: Seq<char>,
    pub y: Seq<char>,
    pub z: Seq<char>,
}

/// A three-dimensional coordinate; each coordinate is a double carried by
/// its decimal form.
pub struct Point {
    x: Real,
    y: Real,
    z: Real,
}

impl View for Point {
    type V = PointV;

    closed spec fn view(&self) -> PointV {
        PointV { x: self.x@, y: self.y@, z: self.z@ }
    }
}

/// `sqrt(x*x + y*y + z*z)`.
pub open spec fn norm2_spec(p: PointV) -> Seq<char> {
    sqrt_real(
        add_real(
            add_real(mul_real(p.x, p.x), mul_real(p.y, p.y)),
            mul_real(p.z, p.z),
        ),
    )
}

/// `x1*x2 + y1*y2 + z1*z2`.
pub open spec fn dot_spec(p: PointV, q: PointV) -> Seq<char> {
    add_real(
        add_real(mul_real(p.x, q.x), mul_real(p.y, q.y)),
        mul_real(p.z, q.z),
    )
}

/// `sqrt((x1-x2)^2 + (y1-y2)^2 + (z1-z2)^2)`, the powers through pow.
pub open spec fn distance_spec(p: PointV, q: PointV) -> Seq<char> {
    sqrt_real(
        add_real(
            add_real(
                pow_real(sub_real(p.x, q.x), "2"@),
                pow_real(sub_real(p.y, q.y), "2"@),
            ),
            pow_real(sub_real(p.z, q.z), "2"@),
        ),
    )
}

/// The bit pattern of 90.0.
pub const NINETY_BITS: u64 = 0x4056800000000000;

/// The angle, reduced by 90 while it exceeds 90 in the bit order of
/// non-negative doubles, with bounded fuel.  The arc tangent of a planar
/// direction is at most 180 in degrees, so two reductions always suffice.
pub open spec fn fold90(a: Seq<char>, fuel: nat) -> Seq<char>
    decreases fuel,
{
    if fuel == 0 {
        a
    } else if bits_of(a) > NINETY_BITS {
        fold90(sub_real(a, "90"@), (fuel - 1) as nat)
    } else {
        a
    }
}

/// The angle of arrival from `p` toward `q`: the absolute arc tangent of
/// the displacement in degrees, folded into [0, 90].
pub open spec fn aov_2d_spec(p: PointV, q: PointV) -> Seq<char> {
    fold90(
        abs_real(
            div_real(
                mul_real(atan2_real(sub_real(q.y, p.y), sub_real(q.x, p.x)), "180"@),
                pi_repr(),
            ),
        ),
        4,
    )
}


/// The readable form of a point's coordinates: the three decimal forms,
/// parenthesised and comma-separated.
pub open spec fn point_id_form_spec(p: PointV) -> Seq<char> {
    "("@ + p.x + ", "@ + p.y + ", "@ + p.z + ")"@
}

impl Point {
    /// A planar point: the third coordinate is zero.
    pub fn init_2d(x: Real, y: Real) -> (p: Point)
        ensures
            p@.x == x@,
            p@.y == y@,
            p@.z == "0"@,
    {
        Point { x, y, z: Real::from_repr("0") }
    }

    pub fn init_3d(x: Real, y: Real, z: Real) -> (p: Point)
        ensures
            p@ == (PointV { x: x@, y: y@, z: z@ }),
    {
        Point { x, y, z }
    }

    /// A copy holding the same coordinates.
    pub fn dup(&self) -> (p: Point)
        ensures
            p@ == self@,
    {
        Point { x: self.x.dup(), y: self.y.dup(), z: self.z.dup() }
    }


    /// The first coordinate.
    pub fn x(&self) -> (r: &Real)
        ensures
            r@ == self@.x,
    {
        &self.x
    }

    /// The second coordinate.
    pub fn y(&self) -> (r: &Real)
        ensures
            r@ == self@.y,
    {
        &self.y
    }

    /// The third coordinate.
    pub fn z(&self) -> (r: &Real)
        ensures
            r@ == self@.z,
    {
        &self.z
    }

    /// The readable form of the coordinates, used to synthesise ids.
    pub fn id_form(&self) -> (s: String)
        ensures
            s@ == point_id_form_spec(self@),
    {
        String::from_str("(").concat(self.x.repr.as_str()).concat(", ").concat(
            self.y.repr.as_str(),
        ).concat(", ").concat(self.z.repr.as_str()).concat(")")
    }

    /// The Euclidean norm of the coordinate vector.
    pub fn norm_2(&self) -> (r: Real)
        ensures
            r@ == norm2_spec(self@),
    {
        let xx = self.x.mul(&self.x);
        let yy = self.y.mul(&self.y);
        let zz = self.z.mul(&self.z);
        xx.add(&yy).add(&zz).sqrt()
    }

    /// The dot product of the two coordinate vectors.
    pub fn dot(&self, other: &Point) -> (r: Real)
        ensures
            r@ == dot_spec(self@, other@),
    {
        let xx = self.x.mul(&other.x);
        let yy = self.y.mul(&other.y);
        let zz = self.z.mul(&other.z);
        xx.add(&yy).add(&zz)
    }

    /// The angle of arrival toward `other`, in degrees, folded into
    /// [0, 90]: the planar antenna model reads every direction as an
    /// acute angle.
    pub fn aov_2d(&self, other: &Point) -> (r: Real)
        ensures
            r@ == aov_2d_spec(self@, other@),
    {
        let dy = other.y.sub(&self.y);
        let dx = other.x.sub(&self.x);
        let degrees = dy.atan2(&dx).mul(&Real::from_repr("180")).div(&Real::pi());
        let mut acc = degrees.abs();
        let ninety = Real::from_repr("90");
        let mut fuel: usize = 4;
        while fuel > 0 && acc.bits() > NINETY_BITS
            invariant
                fuel <= 4,
                ninety@ == "90"@,
                fold90(acc@, fuel as nat) == aov_2d_spec(self@, other@),
            decreases fuel,
        {
            acc = acc.sub(&ninety);
            fuel = fuel - 1;
        }
        acc
    }

    /// The Euclidean distance between the two points.
    pub fn distance_with(&self, other: &Point) -> (r: Real)
        ensures
            r@ == distance_spec(self@, other@),
    {
        let two = Real::from_repr("2");
        let px = self.x.sub(&other.x).pow(&two);
        let py = self.y.sub(&other.y).pow(&two);
        let pz = self.z.sub(&other.z).pow(&two);
        px.add(&py).add(&pz).sqrt()
    }

    /// Adds `other` onto this point, coordinate by coordinate.
    pub fn add(&mut self, other: &Point)
        ensures
            final(self)@.x == add_real(old(self)@.x, other@.x),
            final(self)@.y == add_real(old(self)@.y, other@.y),
            final(self)@.z == add_real(old(self)@.z, other@.z),
    {
        self.x = self.x.add(&other.x);
        self.y = self.y.add(&other.y);
        self.z = self.z.add(&other.z);
    }

    /// The coordinate-wise sum of the two points, as a new point.
    pub fn add_to_new(a: &Point, b: &Point) -> (p: Point)
        ensures
            p@.x == add_real(a@.x, b@.x),
            p@.y == add_real(a@.y, b@.y),
            p@.z == add_real(a@.z, b@.z),
    {
        Point { x: a.x.add(&b.x), y: a.y.add(&b.y), z: a.z.add(&b.z) }
    }

    /// Adds the same value onto all three coordinates.
    pub fn add_const(&mut self, const_data: Real)
        ensures
            final(self)@.x == add_real(old(self)@.x, const_data@),
            final(self)@.y == add_real(old(self)@.y, const_data@),
            final(self)@.z == add_real(old(self)@.z, const_data@),
    {
        self.x = self.x.add(&const_data);
        self.y = self.y.add(&const_data);
        self.z = self.z.add(&const_data);
    }

    /// Scales all three coordinates by the same value.
    pub fn dot_const(&mut self, const_data: Real)
        ensures
            final(self)@.x == mul_real(old(self)@.x, const_data@),
            final(self)@.y == mul_real(old(self)@.y, const_data@),
            final(self)@.z == mul_real(old(self)@.z, const_data@),
    {
        self.x = self.x.mul(&const_data);
        self.y = self.y.mul(&const_data);
        self.z = self.z.mul(&const_data);
    }
}

} // verus!
