//! The simulation engine: the body collection, its invariant-preserving
//! mutation operations, the aggregate diagnostics, and the 4th-order
//! Runge-Kutta time step under pairwise Newtonian gravity.

use vstd::prelude::*;

use crate::scalar::{
    add_s, div_s, mul_s, r_add, r_div, r_mul, G_BITS, HALF, ONE, POS_ZERO, SIX, TWO,
};
use crate::vec2::{
    v_add, v_divs, v_mag, v_mag_sq, v_norm, v_scale, v_sub, v_zero, Vec2,
};

verus! {

/// Why a population operation failed: the id names no live body.
#[derive(Clone, Copy, PartialEq, Eq, Structural, Debug)]
pub enum Error {
    NotFound,
}

/// A simulated point mass: a stable identity, a mass and the current
/// physical state. All scalars are binary64 bit patterns.
#[derive(Clone, Copy, PartialEq, Eq, Structural, Debug)]
pub struct Body {
    /// Process-unique identity, assigned at creation and never reused.
    pub id: u64,
    /// Mass.
    pub m: u64,
    /// Position.
    pub r: Vec2,
    /// Velocity.
    pub v: Vec2,
}

impl Body {
    /// The body's stable identity.
    pub fn id(&self) -> (i: u64)
        ensures
            i == self.id,
    {
        self.id
    }
}

/// The owned collection of live bodies plus the next-id counter.
pub struct System {
    next_id: u64,
    bodies: Vec<Body>,
}

/// Index of the first live body with identity `id` in `s`, or `-1` when
/// there is none.
pub open spec fn find_id(s: Seq<Body>, id: u64) -> int
    decreases s.len(),
{
    if s.len() == 0 {
        -1
    } else if s[0].id == id {
        0
    } else {
        let t = find_id(s.drop_first(), id);
        if t < 0 {
            -1
        } else {
            t + 1
        }
    }
}

/// Whether some live body in `s` has identity `id`.
pub open spec fn has_id(s: Seq<Body>, id: u64) -> bool {
    find_id(s, id) >= 0
}

/// The collection after an order-disturbing removal at index `i`: the last
/// body takes the removed one's place.
pub open spec fn remove_at(s: Seq<Body>, i: int) -> Seq<Body> {
    s.update(i, s.last()).drop_last()
}

/// `find_id` returns `i` when no index before `i` holds `id` and `i` does,
/// and a negative answer when no index at all holds it.
pub proof fn lemma_find_id_at(s: Seq<Body>, id: u64, i: int)
    requires
        0 <= i <= s.len(),
        forall|j: int| 0 <= j < i ==> s[j].id != id,
    ensures
        i < s.len() && s[i].id == id ==> find_id(s, id) == i,
        i == s.len() ==> find_id(s, id) < 0,
    decreases s.len(),
{
    if s.len() > 0 {
        if s[0].id == id {
        } else {
            assert(forall|j: int| 0 <= j < s.len() - 1 ==> s.drop_first()[j] == s[j + 1]);
            if i > 0 {
                lemma_find_id_at(s.drop_first(), id, i - 1);
            } else {
                if i < s.len() && s[i].id == id {
                }
            }
        }
    }
}

/// Sum of all body masses, folded left from `0.0` in storage order.
pub open spec fn mass_total_spec(s: Seq<Body>) -> u64
    decreases s.len(),
{
    if s.len() == 0 {
        POS_ZERO
    } else {
        r_add(mass_total_spec(s.drop_last()), s.last().m)
    }
}

/// Sum of the mass-weighted positions, folded left from the zero vector.
pub open spec fn weighted_pos_spec(s: Seq<Body>) -> Vec2
    decreases s.len(),
{
    if s.len() == 0 {
        v_zero()
    } else {
        v_add(weighted_pos_spec(s.drop_last()), v_scale(s.last().r, s.last().m))
    }
}

/// Mass-weighted average position: the summed `r * m` divided by the total
/// mass. Degenerate (NaN or infinite components) when the total mass is
/// zero, which is accepted, not guarded.
pub open spec fn center_mass_spec(s: Seq<Body>) -> Vec2 {
    v_divs(weighted_pos_spec(s), mass_total_spec(s))
}

/// Sum of the mass-weighted velocities, folded left from the zero vector:
/// the system's total momentum.
pub open spec fn momentum_spec(s: Seq<Body>) -> Vec2
    decreases s.len(),
{
    if s.len() == 0 {
        v_zero()
    } else {
        v_add(momentum_spec(s.drop_last()), v_scale(s.last().v, s.last().m))
    }
}

/// One body's energy term: kinetic energy `0.5 * m * |v|^2` plus the
/// center-of-mass potential term `G * m_tot * m / |r - cm|`. The potential
/// uses the distance to the center of mass, not the pairwise sum; this
/// approximation is part of the diagnostic's definition.
pub open spec fn body_energy_spec(m_tot: u64, cm: Vec2, b: Body) -> u64 {
    r_add(
        r_mul(r_mul(HALF, b.m), v_mag_sq(b.v)),
        r_div(r_mul(r_mul(G_BITS, m_tot), b.m), v_mag(v_sub(b.r, cm))),
    )
}

/// Sum of the per-body energy terms, folded left from `0.0`.
pub open spec fn energy_sum_spec(s: Seq<Body>, m_tot: u64, cm: Vec2) -> u64
    decreases s.len(),
{
    if s.len() == 0 {
        POS_ZERO
    } else {
        r_add(energy_sum_spec(s.drop_last(), m_tot, cm), body_energy_spec(m_tot, cm, s.last()))
    }
}

/// Total energy of the collection: the energy terms summed with the
/// collection's own total mass and center of mass.
pub open spec fn energy_spec(s: Seq<Body>) -> u64 {
    energy_sum_spec(s, mass_total_spec(s), center_mass_spec(s))
}

/// The Newtonian attraction exerted on a body of mass `m1` at position `r1`
/// by one of mass `m2` at `r2`: the unit vector toward the second body,
/// scaled by `G * m1 * m2 / |r2 - r1|^2`. Coincident positions make the
/// squared distance zero and the result degenerate; not guarded.
pub open spec fn grav_spec(m1: u64, r1: Vec2, m2: u64, r2: Vec2) -> Vec2 {
    let d = v_sub(r2, r1);
    v_scale(v_norm(d), r_div(r_mul(r_mul(G_BITS, m1), m2), v_mag_sq(d)))
}

/// Net gravitational force on a body of identity `id`, mass `m` and
/// position `r` from the first `n` bodies of `s`, each standing at its
/// predicted position `raux[j]`; a body is excluded from its own sum by
/// identity, never by position. Folded left from the zero vector.
pub open spec fn force_net_spec(
    s: Seq<Body>,
    raux: Seq<Vec2>,
    id: u64,
    m: u64,
    r: Vec2,
    n: int,
) -> Vec2
    decreases n,
{
    if n <= 0 {
        v_zero()
    } else {
        let rest = force_net_spec(s, raux, id, m, r, n - 1);
        if s[n - 1].id != id {
            v_add(rest, grav_spec(m, r, s[n - 1].m, raux[n - 1]))
        } else {
            rest
        }
    }
}

/// Predicted positions for one stage: each body's current position advanced
/// by its previous stage velocity over the sub-step `hs`.
pub open spec fn predict_spec(s: Seq<Body>, k: Seq<Vec2>, hs: u64) -> Seq<Vec2> {
    Seq::new(s.len(), |i: int| v_add(s[i].r, v_scale(k[i], hs)))
}

/// Stage velocities for one stage: each body's current velocity advanced by
/// its net acceleration at the predicted positions over the sub-step `hs`.
pub open spec fn stage_k_spec(s: Seq<Body>, k: Seq<Vec2>, hs: u64) -> Seq<Vec2> {
    let raux = predict_spec(s, k, hs);
    Seq::new(
        s.len(),
        |i: int|
            v_add(
                s[i].v,
                v_scale(
                    v_divs(force_net_spec(s, raux, s[i].id, s[i].m, s[i].r, s.len() as int), s[i].m),
                    hs,
                ),
            ),
    )
}

/// The weighted velocity accumulator after one stage: each body's
/// accumulator grown by its stage velocity times the stage weight `w`.
pub open spec fn stage_acc_spec(acc: Seq<Vec2>, k: Seq<Vec2>, w: u64) -> Seq<Vec2> {
    Seq::new(acc.len(), |i: int| v_add(acc[i], v_scale(k[i], w)))
}

/// The weighted velocity accumulator after all four Runge-Kutta stages:
/// stage one takes the current velocities with weight one; stages two to
/// four, with sub-steps `h/2`, `h/2`, `h/1` and weights `2`, `2`, `1`,
/// predict positions from the previous stage's velocities and re-evaluate
/// gravity there.
pub open spec fn acc_spec(s: Seq<Body>, h: u64) -> Seq<Vec2> {
    let k1 = Seq::new(s.len(), |i: int| s[i].v);
    let k2 = stage_k_spec(s, k1, r_div(h, TWO));
    let a2 = stage_acc_spec(k1, k2, TWO);
    let k3 = stage_k_spec(s, k2, r_div(h, TWO));
    let a3 = stage_acc_spec(a2, k3, TWO);
    let k4 = stage_k_spec(s, k3, r_div(h, ONE));
    stage_acc_spec(a3, k4, ONE)
}

/// One 4th-order Runge-Kutta step of size `h` over the whole collection:
/// each body's final velocity is its accumulator divided by six, and its
/// position advances by that velocity over `h`. Identities and masses are
/// untouched.
pub open spec fn step_spec(s: Seq<Body>, h: u64) -> Seq<Body> {
    Seq::new(
        s.len(),
        |i: int|
            {
                let vn = v_divs(acc_spec(s, h)[i], SIX);
                Body { id: s[i].id, m: s[i].m, r: v_add(s[i].r, v_scale(vn, h)), v: vn }
            },
    )
}

/// Computes `grav_spec` on concrete scalars.
fn gravity(m1: u64, r1: Vec2, m2: u64, r2: Vec2) -> (f: Vec2)
    ensures
        f == grav_spec(m1, r1, m2, r2),
{
    let d = r2.sub(r1);
    let fs = div_s(mul_s(mul_s(G_BITS, m1), m2), d.mag_sq());
    d.norm().mul(fs)
}

/// Computes the net force of `force_net_spec` over the whole collection.
fn force_net(bodies: &Vec<Body>, raux: &Vec<Vec2>, id: u64, m: u64, r: Vec2) -> (f: Vec2)
    requires
        raux@.len() == bodies@.len(),
    ensures
        f == force_net_spec(bodies@, raux@, id, m, r, bodies@.len() as int),
{
    let n = bodies.len();
    let mut acc = Vec2(POS_ZERO, POS_ZERO);
    let mut j: usize = 0;
    while j < n
        invariant
            j <= n,
            n == bodies@.len(),
            raux@.len() == n,
            acc == force_net_spec(bodies@, raux@, id, m, r, j as int),
        decreases n - j,
    {
        let b = bodies[j];
        if b.id != id {
            acc = acc.add(gravity(m, r, b.m, raux[j]));
        }
        j = j + 1;
    }
    acc
}

/// Updating one body without touching its identity preserves
/// well-formedness.
proof fn lemma_wf_after_update(pre: System, post: System, i: int)
    requires
        0 <= i < pre.s_bodies().len(),
        post.s_bodies().len() == pre.s_bodies().len(),
        post.s_next_id() == pre.s_next_id(),
        forall|a: int| 0 <= a < pre.s_bodies().len() && a != i ==> post.s_bodies()[a] == pre.s_bodies()[a],
        post.s_bodies()[i].id == pre.s_bodies()[i].id,
    ensures
        pre.wf() ==> post.wf(),
{
    if pre.wf() {
        assert forall|a: int, b: int| 0 <= a < b < post.s_bodies().len() implies post.s_bodies()[a].id
            != post.s_bodies()[b].id by {
            assert(post.s_bodies()[a].id == pre.s_bodies()[a].id);
            assert(post.s_bodies()[b].id == pre.s_bodies()[b].id);
        }
        assert forall|a: int| 0 <= a < post.s_bodies().len() implies post.s_bodies()[a].id
            < post.s_next_id() by {
            assert(post.s_bodies()[a].id == pre.s_bodies()[a].id);
        }
    }
}

impl Default for System {
    /// An empty system, as `System::new` builds it.
    fn default() -> (s: System)
        ensures
            s.s_bodies() == Seq::<Body>::empty(),
            s.s_next_id() == 0,
            s.wf(),
    {
        System::new()
    }
}

impl System {
    /// The live bodies, in storage order.
    pub closed spec fn s_bodies(self) -> Seq<Body> {
        self.bodies@
    }

    /// The identity the next added body will receive.
    pub closed spec fn s_next_id(self) -> u64 {
        self.next_id
    }

    /// Well-formedness: live bodies have pairwise distinct identities, each
    /// below the next-id counter, so a fresh id can never collide.
    pub open spec fn wf(self) -> bool {
        &&& forall|i: int, j: int|
            0 <= i < j < self.s_bodies().len() ==> #[trigger] self.s_bodies()[i].id
                != #[trigger] self.s_bodies()[j].id
        &&& forall|i: int|
            0 <= i < self.s_bodies().len() ==> #[trigger] self.s_bodies()[i].id < self.s_next_id()
    }

    /// Creates an empty system.
    pub fn new() -> (s: System)
        ensures
            s.s_bodies() == Seq::<Body>::empty(),
            s.s_next_id() == 0,
            s.wf(),
    {
        System { next_id: 0, bodies: Vec::new() }
    }

    /// Allocates a new body with a fresh identity, appends it, and returns
    /// the identity. No constraint is put on mass, position or velocity.
    pub fn add_body(&mut self, m: u64, r: Vec2, v: Vec2) -> (id: u64)
        requires
            old(self).s_next_id() < u64::MAX,
        ensures
            id == old(self).s_next_id(),
            final(self).s_next_id() == old(self).s_next_id() + 1,
            final(self).s_bodies() == old(self).s_bodies().push((Body { id, m, r, v })),
            old(self).wf() ==> final(self).wf(),
    {
        let id = self.next_id;
        self.next_id = self.next_id + 1;
        self.bodies.push(Body { id, m, r, v });
        proof {
            if old(self).wf() {
                let s0 = old(self).s_bodies();
                let s1 = self.s_bodies();
                assert forall|a: int, b: int| 0 <= a < b < s1.len() implies s1[a].id != s1[b].id by {
                    assert(s1[a] == s0[a]);
                    if b < s1.len() - 1 {
                        assert(s1[b] == s0[b]);
                    }
                }
                assert forall|a: int| 0 <= a < s1.len() implies s1[a].id < self.s_next_id() by {
                    if a < s1.len() - 1 {
                        assert(s1[a] == s0[a]);
                    }
                }
            }
        }
        id
    }

    /// Index of the first live body with identity `id`.
    fn find_index(&self, id: u64) -> (r: Option<usize>)
        ensures
            match r {
                Some(i) => i < self.s_bodies().len() && find_id(self.s_bodies(), id) == i as int
                    && self.s_bodies()[i as int].id == id,
                None => find_id(self.s_bodies(), id) < 0,
            },
    {
        let n = self.bodies.len();
        let mut i: usize = 0;
        while i < n
            invariant
                i <= n,
                n == self.s_bodies().len(),
                forall|j: int| 0 <= j < i ==> self.s_bodies()[j].id != id,
            decreases n - i,
        {
            if self.bodies[i].id == id {
                proof {
                    lemma_find_id_at(self.s_bodies(), id, i as int);
                }
                return Some(i);
            }

            i = i + 1;
        }
        proof {
            lemma_find_id_at(self.s_bodies(), id, n as int);
        }
        None
    }

    /// Removes the body with identity `id`, disturbing storage order (the
    /// last body takes its place). Fails with `NotFound`, mutating nothing,
    /// when no live body has that id.
    pub fn remove_body(&mut self, id: u64) -> (res: Result<(), Error>)
        ensures
            final(self).s_next_id() == old(self).s_next_id(),
            has_id(old(self).s_bodies(), id) ==> res == Ok::<(), Error>(())
                && final(self).s_bodies() == remove_at(
                old(self).s_bodies(),
                find_id(old(self).s_bodies(), id),
            ),
            !has_id(old(self).s_bodies(), id) ==> res == Err::<(), Error>(Error::NotFound)
                && final(self).s_bodies() == old(self).s_bodies(),
            old(self).wf() ==> final(self).wf(),
    {
        match self.find_index(id) {
            Some(i) => {
                self.bodies.swap_remove(i);
                proof {
                    let s0 = old(self).s_bodies();
                    let s1 = self.s_bodies();
                    let upd = s0.update(i as int, s0.last());
                    assert forall|a: int| 0 <= a < s1.len() implies (s1[a] == s0[a] || s1[a]
                        == s0.last()) by {
                        assert(s1[a] == upd[a]);
                    }
                    if old(self).wf() {
                        assert forall|a: int, b: int| 0 <= a < b < s1.len() implies s1[a].id
                            != s1[b].id by {
                            assert(s1[a] == upd[a]);
                            assert(s1[b] == upd[b]);
                        }
                    }
                }
                Ok(())
            },
            None => Err(Error::NotFound),
        }
    }

    /// Reads the body with identity `id`. Fails with `NotFound` when no
    /// live body has that id.
    pub fn body(&self, id: u64) -> (res: Result<Body, Error>)
        ensures
            has_id(self.s_bodies(), id) ==> res == Ok::<Body, Error>(
                self.s_bodies()[find_id(self.s_bodies(), id)],
            ),
            !has_id(self.s_bodies(), id) ==> res == Err::<Body, Error>(Error::NotFound),
    {
        match self.find_index(id) {
            Some(i) => Ok(self.bodies[i]),
            None => Err(Error::NotFound),
        }
    }

    /// Overwrites the mass of the body with identity `id`, effective
    /// immediately. Fails with `NotFound`, mutating nothing, when no live
    /// body has that id.
    pub fn set_mass(&mut self, id: u64, m: u64) -> (res: Result<(), Error>)
        ensures
            final(self).s_next_id() == old(self).s_next_id(),
            has_id(old(self).s_bodies(), id) ==> res == Ok::<(), Error>(())
                && final(self).s_bodies() == old(self).s_bodies().update(
                find_id(old(self).s_bodies(), id),
                ({
                    let b = old(self).s_bodies()[find_id(old(self).s_bodies(), id)];
                    Body { id: b.id, m, r: b.r, v: b.v }
                }),
            ),
            !has_id(old(self).s_bodies(), id) ==> res == Err::<(), Error>(Error::NotFound)
                && final(self).s_bodies() == old(self).s_bodies(),
            old(self).wf() ==> final(self).wf(),
    {
        match self.find_index(id) {
            Some(i) => {
                let b = self.bodies[i];
                self.bodies[i] = Body { id: b.id, m, r: b.r, v: b.v };
                proof {
                    lemma_wf_after_update(*old(self), *self, i as int);
                }
                Ok(())
            },
            None => Err(Error::NotFound),
        }
    }

    /// Overwrites the position of the body with identity `id`, effective
    /// immediately. Fails with `NotFound`, mutating nothing, when no live
    /// body has that id.
    pub fn set_pos(&mut self, id: u64, r: Vec2) -> (res: Result<(), Error>)
        ensures
            final(self).s_next_id() == old(self).s_next_id(),
            has_id(old(self).s_bodies(), id) ==> res == Ok::<(), Error>(())
                && final(self).s_bodies() == old(self).s_bodies().update(
                find_id(old(self).s_bodies(), id),
                ({
                    let b = old(self).s_bodies()[find_id(old(self).s_bodies(), id)];
                    Body { id: b.id, m: b.m, r, v: b.v }
                }),
            ),
            !has_id(old(self).s_bodies(), id) ==> res == Err::<(), Error>(Error::NotFound)
                && final(self).s_bodies() == old(self).s_bodies(),
            old(self).wf() ==> final(self).wf(),
    {
        match self.find_index(id) {
            Some(i) => {
                let b = self.bodies[i];
                self.bodies[i] = Body { id: b.id, m: b.m, r, v: b.v };
                proof {
                    lemma_wf_after_update(*old(self), *self, i as int);
                }
                Ok(())
            },
            None => Err(Error::NotFound),
        }
    }

    /// Overwrites the velocity of the body with identity `id`, effective
    /// immediately. Fails with `NotFound`, mutating nothing, when no live
    /// body has that id.
    pub fn set_vel(&mut self, id: u64, v: Vec2) -> (res: Result<(), Error>)
        ensures
            final(self).s_next_id() == old(self).s_next_id(),
            has_id(old(self).s_bodies(), id) ==> res == Ok::<(), Error>(())
                && final(self).s_bodies() == old(self).s_bodies().update(
                find_id(old(self).s_bodies(), id),
                ({
                    let b = old(self).s_bodies()[find_id(old(self).s_bodies(), id)];
                    Body { id: b.id, m: b.m, r: b.r, v }
                }),
            ),
            !has_id(old(self).s_bodies(), id) ==> res == Err::<(), Error>(Error::NotFound)
                && final(self).s_bodies() == old(self).s_bodies(),
            old(self).wf() ==> final(self).wf(),
    {
        match self.find_index(id) {
            Some(i) => {
                let b = self.bodies[i];
                self.bodies[i] = Body { id: b.id, m: b.m, r: b.r, v };
                proof {
                    lemma_wf_after_update(*old(self), *self, i as int);
                }
                Ok(())
            },
            None => Err(Error::NotFound),
        }
    }

    /// The live bodies, in storage order.
    pub fn bodies(&self) -> (r: &Vec<Body>)
        ensures
            r@ == self.s_bodies(),
    {
        &self.bodies
    }

    /// Total mass: the sum of all body masses, `0.0` for an empty system.
    pub fn mass_total(&self) -> (r: u64)
        ensures
            r == mass_total_spec(self.s_bodies()),
    {
        let n = self.bodies.len();
        let mut acc: u64 = POS_ZERO;
        let mut i: usize = 0;
        while i < n
            invariant
                i <= n,
                n == self.s_bodies().len(),
                acc == mass_total_spec(self.s_bodies().take(i as int)),
            decreases n - i,
        {
            proof {
                assert(self.s_bodies().take(i + 1).drop_last() =~= self.s_bodies().take(i as int));
            }
            acc = add_s(acc, self.bodies[i].m);
            i = i + 1;
        }
        proof {
            assert(self.s_bodies().take(n as int) =~= self.s_bodies());
        }
        acc
    }

    /// Center of mass: the mass-weighted average position. Degenerate when
    /// the total mass is zero or the system is empty; not guarded.
    pub fn center_mass(&self) -> (r: Vec2)
        ensures
            r == center_mass_spec(self.s_bodies()),
    {
        let m = self.mass_total();
        let n = self.bodies.len();
        let mut rm = Vec2(POS_ZERO, POS_ZERO);
        let mut i: usize = 0;
        while i < n
            invariant
                i <= n,
                n == self.s_bodies().len(),
                rm == weighted_pos_spec(self.s_bodies().take(i as int)),
            decreases n - i,
        {
            proof {
                assert(self.s_bodies().take(i + 1).drop_last() =~= self.s_bodies().take(i as int));
            }
            let b = self.bodies[i];
            rm = rm.add(b.r.mul(b.m));
            i = i + 1;
        }
        proof {
            assert(self.s_bodies().take(n as int) =~= self.s_bodies());
        }
        rm.div(m)
    }

    /// Total energy: for each body, kinetic energy plus the center-of-mass
    /// potential term, summed over all bodies.
    pub fn energy(&self) -> (r: u64)
        ensures
            r == energy_spec(self.s_bodies()),
    {
        let m_tot = self.mass_total();
        let cm = self.center_mass();
        let n = self.bodies.len();
        let mut acc: u64 = POS_ZERO;
        let mut i: usize = 0;
        while i < n
            invariant
                i <= n,
                n == self.s_bodies().len(),
                acc == energy_sum_spec(self.s_bodies().take(i as int), m_tot, cm),
            decreases n - i,
        {
            proof {
                assert(self.s_bodies().take(i + 1).drop_last() =~= self.s_bodies().take(i as int));
            }
            let b = self.bodies[i];
            let k = mul_s(mul_s(HALF, b.m), b.v.mag_sq());
            let u = div_s(mul_s(mul_s(G_BITS, m_tot), b.m), b.r.sub(cm).mag());
            acc = add_s(acc, add_s(k, u));
            i = i + 1;
        }
        proof {
            assert(self.s_bodies().take(n as int) =~= self.s_bodies());
        }
        acc
    }

    /// Total momentum: the sum of `v * m` over all bodies.
    pub fn momentum(&self) -> (r: Vec2)
        ensures
            r == momentum_spec(self.s_bodies()),
    {
        let n = self.bodies.len();
        let mut acc = Vec2(POS_ZERO, POS_ZERO);
        let mut i: usize = 0;
        while i < n
            invariant
                i <= n,
                n == self.s_bodies().len(),
                acc == momentum_spec(self.s_bodies().take(i as int)),
            decreases n - i,
        {
            proof {
                assert(self.s_bodies().take(i + 1).drop_last() =~= self.s_bodies().take(i as int));
            }
            let b = self.bodies[i];
            acc = acc.add(b.v.mul(b.m));
            i = i + 1;
        }
        proof {
            assert(self.s_bodies().take(n as int) =~= self.s_bodies());
        }
        acc
    }

    /// Runs stages two to four of the step: from the previous stage
    /// velocities `k` and accumulators `acc`, computes this stage's
    /// velocities and grown accumulators, with sub-step `h / w` and weight
    /// `w`.
    fn stage(bodies: &Vec<Body>, k: &Vec<Vec2>, acc: &Vec<Vec2>, h: u64, w: u64) -> (r: (
        Vec<Vec2>,
        Vec<Vec2>,
    ))
        requires
            k@.len() == bodies@.len(),
            acc@.len() == bodies@.len(),
        ensures
            r.0@ == stage_k_spec(bodies@, k@, r_div(h, w)),
            r.1@ == stage_acc_spec(acc@, stage_k_spec(bodies@, k@, r_div(h, w)), w),
    {
        let n = bodies.len();
        let hs = div_s(h, w);
        let mut raux: Vec<Vec2> = Vec::new();
        let mut i: usize = 0;
        while i < n
            invariant
                i <= n,
                n == bodies@.len(),
                k@.len() == n,
                raux@.len() == i,
                forall|j: int| 0 <= j < i ==> raux@[j] == v_add(bodies@[j].r, v_scale(k@[j], hs)),
            decreases n - i,
        {
            raux.push(bodies[i].r.add(k[i].mul(hs)));
            i = i + 1;
        }
        proof {
            assert(raux@ =~= predict_spec(bodies@, k@, hs));
        }
        let mut nk: Vec<Vec2> = Vec::new();
        let mut na: Vec<Vec2> = Vec::new();
        let mut i: usize = 0;
        while i < n
            invariant
                i <= n,
                n == bodies@.len(),
                k@.len() == n,
                acc@.len() == n,
                hs == r_div(h, w),
                raux@ == predict_spec(bodies@, k@, hs),
                raux@.len() == n,
                nk@.len() == i,
                na@.len() == i,
                forall|j: int| 0 <= j < i ==> nk@[j] == stage_k_spec(bodies@, k@, hs)[j],
                forall|j: int| 0 <= j < i ==> na@[j] == v_add(acc@[j], v_scale(nk@[j], w)),
            decreases n - i,
        {
            let b = bodies[i];
            let f = force_net(bodies, &raux, b.id, b.m, b.r);
            let kk = b.v.add(f.div(b.m).mul(hs));
            proof {
                assert(stage_k_spec(bodies@, k@, hs)[i as int] == kk);
            }
            nk.push(kk);
            na.push(acc[i].add(kk.mul(w)));
            i = i + 1;
        }
        proof {
            assert(nk@ =~= stage_k_spec(bodies@, k@, hs));
            assert(na@ =~= stage_acc_spec(acc@, stage_k_spec(bodies@, k@, hs), w));
        }
        (nk, na)
    }

    /// Advances every body by the time interval `h` with one classical
    /// 4th-order Runge-Kutta step under pairwise Newtonian gravity, exactly
    /// as `step_spec` describes. Identities, masses and the id counter are
    /// untouched; an empty or single-body system runs trivially.
    pub fn step(&mut self, h: u64)
        ensures
            final(self).s_next_id() == old(self).s_next_id(),
            final(self).s_bodies() == step_spec(old(self).s_bodies(), h),
            old(self).wf() ==> final(self).wf(),
    {
        let ghost s0 = self.s_bodies();
        let n = self.bodies.len();
        let mut k: Vec<Vec2> = Vec::new();
        let mut acc: Vec<Vec2> = Vec::new();
        let mut i: usize = 0;
        while i < n
            invariant
                i <= n,
                n == self.s_bodies().len(),
                k@.len() == i,
                acc@.len() == i,
                forall|j: int|
                    0 <= j < i ==> k@[j] == self.s_bodies()[j].v && acc@[j]
                        == self.s_bodies()[j].v,
            decreases n - i,
        {
            let v = self.bodies[i].v;
            k.push(v);
            acc.push(v);
            i = i + 1;
        }
        let ghost k1 = Seq::new(s0.len(), |i: int| s0[i].v);
        proof {
            assert(k@ =~= k1);
            assert(acc@ =~= k1);
        }
        let r2 = Self::stage(&self.bodies, &k, &acc, h, TWO);
        let k = r2.0;
        let acc = r2.1;
        let r3 = Self::stage(&self.bodies, &k, &acc, h, TWO);
        let k = r3.0;
        let acc = r3.1;
        let r4 = Self::stage(&self.bodies, &k, &acc, h, ONE);
        let acc = r4.1;
        let ghost a4 = acc@;
        proof {
            assert(a4 == acc_spec(s0, h));
        }
        let mut out: Vec<Body> = Vec::new();
        let mut i: usize = 0;
        while i < n
            invariant
                i <= n,
                n == self.s_bodies().len(),
                self.s_bodies() == s0,
                acc@ == a4,
                acc@.len() == n,
                out@.len() == i,
                forall|j: int|
                    0 <= j < i ==> out@[j] == ({
                        let vn = v_divs(a4[j], SIX);
                        Body {
                            id: s0[j].id,
                            m: s0[j].m,
                            r: v_add(s0[j].r, v_scale(vn, h)),
                            v: vn,
                        }
                    }),
            decreases n - i,
        {
            let b = self.bodies[i];
            let vn = acc[i].div(SIX);
            out.push(Body { id: b.id, m: b.m, r: b.r.add(vn.mul(h)), v: vn });
            i = i + 1;
        }
        self.bodies = out;
        proof {
            assert(self.s_bodies() =~= step_spec(s0, h));
            if old(self).wf() {
                assert forall|a: int| 0 <= a < self.s_bodies().len() implies self.s_bodies()[a].id
                    == s0[a].id by {
                    assert(self.s_bodies()[a] == step_spec(s0, h)[a]);
                }
            }
        }
    }
}

} // verus!

