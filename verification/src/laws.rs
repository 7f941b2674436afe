//! Laws of the engine: properties that relate several operations, stated
//! over the same spec functions the operations' contracts use and proved
//! once and for all.

use vstd::prelude::*;

use crate::scalar::SIX;
use crate::sim::{
    acc_spec, center_mass_spec, energy_spec, find_id, force_net_spec, has_id, lemma_find_id_at,
    mass_total_spec, momentum_spec, remove_at, step_spec, Body, System,
};
use crate::vec2::{v_add, v_divs, v_scale, v_zero, Vec2};

verus! {

/// Adding a body and at once removing it by the returned identity restores
/// the collection exactly — the removal must find the fresh body, and the
/// swap removal of a last element is order-preserving — so body count and
/// every diagnostic are numerically identical to their pre-add values; only
/// the id counter has advanced. `mid` is the system `add_body(m, r, v)`
/// leaves behind and `id` its answer; `post` is what `remove_body(id)`
/// then leaves, each pinned by those operations' contracts.
pub proof fn lemma_add_then_remove_restores(
    pre: System,
    mid: System,
    post: System,
    id: u64,
    m: u64,
    r: Vec2,
    v: Vec2,
)
    requires
        pre.wf(),
        id == pre.s_next_id(),
        mid.s_next_id() == pre.s_next_id() + 1,
        mid.s_bodies() == pre.s_bodies().push((Body { id, m, r, v })),
        post.s_next_id() == mid.s_next_id(),
        has_id(mid.s_bodies(), id) ==> post.s_bodies() == remove_at(
            mid.s_bodies(),
            find_id(mid.s_bodies(), id),
        ),
        !has_id(mid.s_bodies(), id) ==> post.s_bodies() == mid.s_bodies(),
    ensures
        has_id(mid.s_bodies(), id),
        post.s_bodies() == pre.s_bodies(),
        post.s_next_id() == pre.s_next_id() + 1,
        mass_total_spec(post.s_bodies()) == mass_total_spec(pre.s_bodies()),
        center_mass_spec(post.s_bodies()) == center_mass_spec(pre.s_bodies()),
        energy_spec(post.s_bodies()) == energy_spec(pre.s_bodies()),
        momentum_spec(post.s_bodies()) == momentum_spec(pre.s_bodies()),
{
    let s = pre.s_bodies();
    let s1 = mid.s_bodies();
    let n = s.len() as int;
    assert forall|j: int| 0 <= j < n implies s1[j].id != id by {
        assert(s1[j] == s[j]);
    }
    lemma_find_id_at(s1, id, n);
    assert(s1[n].id == id);
    assert(find_id(s1, id) == n);
    assert(remove_at(s1, n) =~= s);
}

/// A step never adds, removes or exchanges bodies: the population size and
/// every body's identity and mass are invariant under `step_spec`; only
/// positions and velocities move.
pub proof fn lemma_step_preserves_population(s: Seq<Body>, h: u64)
    ensures
        step_spec(s, h).len() == s.len(),
        forall|i: int|
            0 <= i < s.len() ==> #[trigger] step_spec(s, h)[i].id == s[i].id && step_spec(
                s,
                h,
            )[i].m == s[i].m,
{
    assert(step_spec(s, h).len() == s.len());
    assert forall|i: int| 0 <= i < s.len() implies #[trigger] step_spec(s, h)[i].id == s[i].id
        && step_spec(s, h)[i].m == s[i].m by {
        let vn = v_divs(acc_spec(s, h)[i], SIX);
        assert(step_spec(s, h)[i] == (Body {
            id: s[i].id,
            m: s[i].m,
            r: v_add(s[i].r, v_scale(vn, h)),
            v: vn,
        }));
    }
}

/// With no other body there is nothing to attract: for a single-body
/// collection the net force sum — which excludes the body itself by
/// identity, never by position — is empty, hence the zero vector.
pub proof fn lemma_single_body_zero_force(s: Seq<Body>, raux: Seq<Vec2>)
    requires
        s.len() == 1,
    ensures
        force_net_spec(s, raux, s[0].id, s[0].m, s[0].r, 1) == v_zero(),
{
    assert(force_net_spec(s, raux, s[0].id, s[0].m, s[0].r, 0) == v_zero());
}

} // verus!
