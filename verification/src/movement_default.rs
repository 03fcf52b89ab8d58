use vstd::prelude::*;
use crate::access::AccessMode;
use crate::location::{Location, points_view};
use crate::point::{Point, PointV};
use crate::scalar::{Real, add_real, mul_real};

verus! {

/// The mathematical value of the fixed-velocity strategy.
pub ghost struct FixedVelocityV {
    pub tick: Seq<char>,
    pub num_ue: nat,
    pub num_bs: nat,
    pub velocity: Seq<PointV>,
    pub ue_last_position: Seq<PointV>,
    pub bs_position: Seq<PointV>,
    pub access_mode: Seq<AccessMode>,
}

/// Constant-velocity straight-line motion: each tick, every terminal
/// advances by its velocity scaled by the tick length.  Stations do not
/// move.
pub struct FixedVelocity {
    tick: Real,
    num_ue: usize,
    num_bs: usize,
    velocity: Vec<Point>,
    ue_last_position: Vec<Point>,
    bs_position: Vec<Point>,
    access_mode: Vec<AccessMode>,
}

/// One tick of motion: each coordinate grows by the matching velocity
/// coordinate scaled by the tick length.
pub open spec fn advance_spec(p: PointV, v: PointV, tick: Seq<char>) -> PointV {
    PointV {
        x: add_real(p.x, mul_real(v.x, tick)),
        y: add_real(p.y, mul_real(v.y, tick)),
        z: add_real(p.z, mul_real(v.z, tick)),
    }
}

/// How many terminals move: positions and velocities are walked in step,
/// so the shorter list bounds the walk.
pub open spec fn advance_len(l: FixedVelocityV) -> nat {
    if l.ue_last_position.len() <= l.velocity.len() {
        l.ue_last_position.len()
    } else {
        l.velocity.len()
    }
}

/// The positions after one tick.
pub open spec fn advanced_positions(l: FixedVelocityV) -> Seq<PointV> {
    Seq::new(advance_len(l), |i: int| advance_spec(l.ue_last_position[i], l.velocity[i], l.tick))
}

/// The access modes a strategy built without explicit modes falls back
/// to: every station uses non-orthogonal access.
pub open spec fn default_modes(num_bs: nat) -> Seq<AccessMode> {
    Seq::new(num_bs, |i: int| AccessMode::NOMA)
}

impl FixedVelocity {
    /// A strategy over the given layout; stations without explicit access
    /// modes all use non-orthogonal access.
    pub fn new(
        tick: Real,
        num_ue: usize,
        num_bs: usize,
        access: Option<Vec<AccessMode>>,
        velocity: Vec<Point>,
        ue: Vec<Point>,
        bs: Vec<Point>,
    ) -> (fv: Self)
        ensures
            fv.lview() == (FixedVelocityV {
                tick: tick@,
                num_ue: num_ue as nat,
                num_bs: num_bs as nat,
                velocity: points_view(velocity@),
                ue_last_position: points_view(ue@),
                bs_position: points_view(bs@),
                access_mode: match access {
                    Some(a) => a@,
                    None => default_modes(num_bs as nat),
                },
            }),
    {
        let access_modes: Vec<AccessMode> = match access {
            Some(a) => a,
            None => {
                let mut a: Vec<AccessMode> = Vec::new();
                let mut i: usize = 0;
                while i < num_bs
                    invariant
                        i <= num_bs,
                        a@.len() == i,
                        forall|m: int| 0 <= m < i ==> a@[m] is NOMA,
                    decreases num_bs - i,
                {
                    a.push(AccessMode::NOMA);
                    i = i + 1;
                }
                proof {
                    assert(a@ =~= default_modes(num_bs as nat));
                }
                a
            },
        };
        Self {
            tick,
            num_ue,
            num_bs,
            velocity,
            ue_last_position: ue,
            bs_position: bs,
            access_mode: access_modes,
        }
    }

    /// Replaces the terminal and station layouts, and the counts with
    /// them.
    pub fn set_positions(&mut self, ue: Vec<Point>, bs: Vec<Point>)
        ensures
            final(self).lview() == (FixedVelocityV {
                num_ue: ue@.len(),
                num_bs: bs@.len(),
                ue_last_position: points_view(ue@),
                bs_position: points_view(bs@),
                ..old(self).lview()
            }),
    {
        self.num_ue = ue.len();
        self.num_bs = bs.len();
        self.ue_last_position = ue;
        self.bs_position = bs;
    }

    /// Replaces the per-terminal velocity vectors.
    pub fn set_velocity(&mut self, velocity: Vec<Point>)
        ensures
            final(self).lview() == (FixedVelocityV {
                velocity: points_view(velocity@),
                ..old(self).lview()
            }),
    {
        self.velocity = velocity;
    }

    /// A snapshot of the terminals' current positions.
    fn get_ues(&self) -> (r: Vec<Point>)
        ensures
            points_view(r@) == self.lview().ue_last_position,
    {
        let mut out: Vec<Point> = Vec::new();
        let mut i: usize = 0;
        let n = self.ue_last_position.len();
        while i < n
            invariant
                i <= n,
                n == self.ue_last_position@.len(),
                out@.len() == i,
                forall|m: int| 0 <= m < i ==> (#[trigger] out@[m])@ == self.ue_last_position@[m]@,
            decreases n - i,
        {
            out.push(self.ue_last_position[i].dup());
            i = i + 1;
        }
        proof {
            assert(points_view(out@) =~= self.lview().ue_last_position);
        }
        out
    }

    /// A snapshot of the station layout and its access modes.
    fn get_bss(&self) -> (r: (Vec<Point>, Vec<AccessMode>))
        ensures
            points_view(r.0@) == self.lview().bs_position,
            r.1@ == self.lview().access_mode,
    {
        let mut out: Vec<Point> = Vec::new();
        let mut i: usize = 0;
        let n = self.bs_position.len();
        while i < n
            invariant
                i <= n,
                n == self.bs_position@.len(),
                out@.len() == i,
                forall|m: int| 0 <= m < i ==> (#[trigger] out@[m])@ == self.bs_position@[m]@,
            decreases n - i,
        {
            out.push(self.bs_position[i].dup());
            i = i + 1;
        }
        let mut modes: Vec<AccessMode> = Vec::new();
        let mut j: usize = 0;
        let k = self.access_mode.len();
        while j < k
            invariant
                j <= k,
                k == self.access_mode@.len(),
                modes@.len() == j,
                forall|m: int| 0 <= m < j ==> modes@[m] == self.access_mode@[m],
            decreases k - j,
        {
            modes.push(self.access_mode[j]);
            j = j + 1;
        }
        proof {
            assert(points_view(out@) =~= self.lview().bs_position);
            assert(modes@ =~= self.lview().access_mode);
        }
        (out, modes)
    }

    /// Advances every terminal one tick: position plus velocity scaled by
    /// the tick length; the result replaces the stored positions and is
    /// also handed out.
    fn update(&mut self) -> (r: Vec<Point>)
        ensures
            final(self).lview() == (FixedVelocityV {
                ue_last_position: advanced_positions(old(self).lview()),
                ..old(self).lview()
            }),
            points_view(r@) == advanced_positions(old(self).lview()),
    {
        let n = if self.ue_last_position.len() <= self.velocity.len() {
            self.ue_last_position.len()
        } else {
            self.velocity.len()
        };
        let mut new_position: Vec<Point> = Vec::new();
        let mut i: usize = 0;
        while i < n
            invariant
                i <= n,
                n == advance_len(self.lview()),
                n <= self.ue_last_position@.len(),
                n <= self.velocity@.len(),
                new_position@.len() == i,
                forall|m: int| 0 <= m < i ==> (#[trigger] new_position@[m])@ == advance_spec(
                    self.lview().ue_last_position[m],
                    self.lview().velocity[m],
                    self.lview().tick,
                ),
            decreases n - i,
        {
            let mut t_dot_v = self.velocity[i].dup();
            t_dot_v.dot_const(self.tick.dup());
            new_position.push(Point::add_to_new(&self.ue_last_position[i], &t_dot_v));
            i = i + 1;
        }
        let mut out: Vec<Point> = Vec::new();
        let mut j: usize = 0;
        while j < n
            invariant
                j <= n,
                n == new_position@.len(),
                out@.len() == j,
                forall|m: int| 0 <= m < j ==> (#[trigger] out@[m])@ == new_position@[m]@,
            decreases n - j,
        {
            out.push(new_position[j].dup());
            j = j + 1;
        }
        self.ue_last_position = new_position;
        proof {
            assert(self.lview().ue_last_position =~= advanced_positions(old(self).lview()));
            assert(points_view(out@) =~= advanced_positions(old(self).lview()));
        }
        out
    }
}

impl Default for FixedVelocity {
    /// A strategy with a unit tick and nothing placed.
    fn default() -> (fv: Self)
        ensures
            fv.lview().tick == "1"@,
            fv.lview().num_ue == 0,
            fv.lview().num_bs == 0,
            fv.lview().velocity.len() == 0,
            fv.lview().ue_last_position.len() == 0,
            fv.lview().bs_position.len() == 0,
            fv.lview().access_mode.len() == 0,
    {
        FixedVelocity::new(Real::from_repr("1"), 0, 0, None, Vec::new(), Vec::new(), Vec::new())
    }
}

impl Location for FixedVelocity {
    type StateV = FixedVelocityV;

    closed spec fn lview(&self) -> FixedVelocityV {
        FixedVelocityV {
            tick: self.tick@,
            num_ue: self.num_ue as nat,
            num_bs: self.num_bs as nat,
            velocity: points_view(self.velocity@),
            ue_last_position: points_view(self.ue_last_position@),
            bs_position: points_view(self.bs_position@),
            access_mode: self.access_mode@,
        }
    }

    open spec fn bss_result_spec(l: FixedVelocityV) -> (Seq<PointV>, Seq<AccessMode>) {
        (l.bs_position, l.access_mode)
    }

    open spec fn bss_state_spec(l: FixedVelocityV) -> FixedVelocityV {
        l
    }

    open spec fn ues_result_spec(l: FixedVelocityV) -> Seq<PointV> {
        l.ue_last_position
    }

    open spec fn ues_state_spec(l: FixedVelocityV) -> FixedVelocityV {
        l
    }

    open spec fn tick_spec(l: FixedVelocityV) -> Seq<char> {
        l.tick
    }

    open spec fn update_result_spec(l: FixedVelocityV) -> Seq<PointV> {
        advanced_positions(l)
    }

    open spec fn update_state_spec(l: FixedVelocityV) -> FixedVelocityV {
        FixedVelocityV { ue_last_position: advanced_positions(l), ..l }
    }

    fn setting_bss(&mut self) -> (r: (Vec<Point>, Vec<AccessMode>)) {
        self.get_bss()
    }

    fn init_ues(&mut self) -> (r: Vec<Point>) {
        self.get_ues()
    }

    fn get_tick(&self) -> (r: Real) {
        self.tick.dup()
    }

    fn update_ues(&mut self) -> (r: Vec<Point>) {
        self.update()
    }
}

/// A small fixed layout: two stations, three terminals, a 1.2 tick.
pub fn gen_test_fixed_velocity() -> (fv: FixedVelocity)
    ensures
        fv.lview().tick == "1.2"@,
        fv.lview().num_ue == 3,
        fv.lview().num_bs == 2,
        fv.lview().velocity.len() == 3,
        fv.lview().ue_last_position.len() == 3,
        fv.lview().bs_position.len() == 2,
        fv.lview().access_mode == default_modes(2),
        fv.lview().ue_last_position[0] == (PointV { x: "50"@, y: "0"@, z: "0"@ }),
        fv.lview().ue_last_position[1] == (PointV { x: "-10"@, y: "10"@, z: "0"@ }),
        fv.lview().ue_last_position[2] == (PointV { x: "-20"@, y: "-20"@, z: "0"@ }),
        fv.lview().velocity[0] == (PointV { x: "10"@, y: "0"@, z: "0"@ }),
        fv.lview().velocity[1] == (PointV { x: "-2"@, y: "2"@, z: "0"@ }),
        fv.lview().velocity[2] == (PointV { x: "-4"@, y: "-4"@, z: "0"@ }),
        fv.lview().bs_position[0] == (PointV { x: "0"@, y: "0"@, z: "0"@ }),
        fv.lview().bs_position[1] == (PointV { x: "100"@, y: "100"@, z: "0"@ }),
{
    let mut bs_location: Vec<Point> = Vec::new();
    bs_location.push(Point::init_2d(Real::from_repr("0"), Real::from_repr("0")));
    bs_location.push(Point::init_2d(Real::from_repr("100"), Real::from_repr("100")));
    let mut ue_location: Vec<Point> = Vec::new();
    ue_location.push(Point::init_2d(Real::from_repr("50"), Real::from_repr("0")));
    ue_location.push(Point::init_2d(Real::from_repr("-10"), Real::from_repr("10")));
    ue_location.push(Point::init_2d(Real::from_repr("-20"), Real::from_repr("-20")));
    let mut velocity: Vec<Point> = Vec::new();
    velocity.push(Point::init_2d(Real::from_repr("10"), Real::from_repr("0")));
    velocity.push(Point::init_2d(Real::from_repr("-2"), Real::from_repr("2")));
    velocity.push(Point::init_2d(Real::from_repr("-4"), Real::from_repr("-4")));
    let num_ue = ue_location.len();
    let num_bs = bs_location.len();
    let fv = FixedVelocity::new(
        Real::from_repr("1.2"),
        num_ue,
        num_bs,
        None,
        velocity,
        ue_location,
        bs_location,
    );
    proof {
        assert(fv.lview().access_mode =~= default_modes(2));
    }
    fv
}


/// Advancing twice applies the same per-tick delta twice: the strategy's
/// formula is a function of the unchanged velocity and tick length, so a
/// second advance moves a terminal from its once-advanced position by
/// exactly the same rule again; the state itself is not idempotent.
pub proof fn lemma_update_twice(l: FixedVelocityV, i: int)
    requires
        0 <= i < advance_len(l),
    ensures
        advanced_positions(l)[i] == advance_spec(l.ue_last_position[i], l.velocity[i], l.tick),
        advance_len(FixedVelocity::update_state_spec(l)) == advance_len(l),
        advanced_positions(FixedVelocity::update_state_spec(l))[i] == advance_spec(
            advanced_positions(l)[i],
            l.velocity[i],
            l.tick,
        ),
{
}

} // verus!
