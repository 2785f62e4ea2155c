//! Random distribution of the configured roles among the participants of a round.
use vstd::multiset::Multiset;
use vstd::prelude::*;

use crate::random::random_below;
use crate::roles::{configs_view, leaf_of, resolves, resolves_by, RoleConfigView, RoleInstanceView, WereWolfRoleConfig, WereWolfRoleInstance};

verus! {

broadcast use {vstd::seq_lib::group_to_multiset_ensures, vstd::multiset::group_multiset_axioms};

/// Why the roles could not be distributed.
#[derive(Debug, PartialEq, Eq, Structural)]
pub enum DistributeError {
    /// There are not exactly as many non-masking roles as participants.
    MismatchedCount { available_roles: usize, player_count: usize },
    /// There are more masking roles than non-masking roles to put inside them.
    TooManyMaskedRoles { masking_roles: usize, normal_roles: usize },
}

/// The views of a list of (role, headcount) pairs.
pub open spec fn counts_view(s: Seq<(WereWolfRoleConfig, usize)>) -> Seq<(RoleConfigView, usize)> {
    s.map_values(|p: (WereWolfRoleConfig, usize)| (p.0@, p.1))
}

/// Every occurrence of the roles whose masking flag is `masks`, each role repeated by
/// its headcount, in the order of the list.
pub open spec fn occurrences(roles: Seq<(RoleConfigView, usize)>, masks: bool) -> Seq<RoleConfigView>
    decreases roles.len(),
{
    if roles.len() == 0 {
        Seq::empty()
    } else {
        let last = roles.last();
        occurrences(roles.drop_last(), masks) + if last.0.masks_role == masks {
            Seq::new(last.1 as nat, |_i: int| last.0)
        } else {
            Seq::empty()
        }
    }
}

/// The instance of a masking role `outer` that holds the plain role `inner`.
pub open spec fn masking_of(outer: RoleConfigView, inner: RoleConfigView) -> RoleInstanceView {
    RoleInstanceView {
        name: outer.name,
        masked_role: Some(Box::new(leaf_of(inner))),
        extra_channels: outer.other_role_channels,
    }
}

/// The assignment hands out the masking roles `outer` first, each holding the plain
/// role of `inner` at the same position, and then the plain roles `plain`.
pub open spec fn assigned_from(
    assigned: Seq<(u64, RoleInstanceView)>,
    outer: Seq<RoleConfigView>,
    inner: Seq<RoleConfigView>,
    plain: Seq<RoleConfigView>,
) -> bool {
    &&& inner.len() == outer.len()
    &&& assigned.len() == outer.len() + plain.len()
    &&& forall|k: int| 0 <= k < outer.len() ==> (#[trigger] assigned[k]).1 == masking_of(outer[k], inner[k])
    &&& forall|k: int| outer.len() <= k < assigned.len() ==> (#[trigger] assigned[k]).1 == leaf_of(plain[k - outer.len()])
}

/// The plain values of a distribution result.
pub open spec fn result_view(r: Result<Vec<(u64, WereWolfRoleInstance)>, DistributeError>) -> Result<Seq<(u64, RoleInstanceView)>, DistributeError> {
    match r {
        Ok(v) => Ok(v@.map_values(|p: (u64, WereWolfRoleInstance)| (p.0, p.1@))),
        Err(e) => Err(e),
    }
}

/// What distributing `roles` among `participants` yields. With M masking and N plain
/// role occurrences and P participants: an error naming N and P unless N == P, else an
/// error naming M and N if M > N, else one entry per participant, in reverse order of
/// the participants: the first M hold the masking occurrences, each with one plain
/// occurrence inside, and the rest hold the remaining plain occurrences, every
/// occurrence used exactly once.
pub open spec fn distribution_outcome(
    participants: Seq<u64>,
    roles: Seq<(RoleConfigView, usize)>,
    r: Result<Seq<(u64, RoleInstanceView)>, DistributeError>,
) -> bool {
    let nested = occurrences(roles, true);
    let normal = occurrences(roles, false);
    let n = participants.len();
    &&& normal.len() != n ==> r == Err::<Seq<(u64, RoleInstanceView)>, DistributeError>(
        DistributeError::MismatchedCount { available_roles: normal.len() as usize, player_count: n as usize },
    )
    &&& normal.len() == n && nested.len() > normal.len() ==> r == Err::<Seq<(u64, RoleInstanceView)>, DistributeError>(
        DistributeError::TooManyMaskedRoles { masking_roles: nested.len() as usize, normal_roles: normal.len() as usize },
    )
    &&& normal.len() == n && nested.len() <= normal.len() ==> r is Ok
    &&& r matches Ok(assigned) ==> {
        &&& assigned.len() == n
        &&& forall|k: int| 0 <= k < n ==> (#[trigger] assigned[k]).0 == participants[n - 1 - k]
        &&& exists|outer: Seq<RoleConfigView>, inner: Seq<RoleConfigView>, plain: Seq<RoleConfigView>|
            #[trigger] assigned_from(assigned, outer, inner, plain)
                && outer.to_multiset() == nested.to_multiset()
                && (inner + plain).to_multiset() == normal.to_multiset()
    }
}

/// The roles with the given masking flag, each repeated by its headcount.
fn get_roles(roles: &Vec<(WereWolfRoleConfig, usize)>, masks: bool) -> (r: Vec<WereWolfRoleConfig>)
    ensures
        configs_view(r@) == occurrences(counts_view(roles@), masks),
{
    let ghost rv = counts_view(roles@);
    let mut result: Vec<WereWolfRoleConfig> = Vec::new();
    let mut i: usize = 0;
    while i < roles.len()
        invariant
            i <= roles@.len(),
            rv == counts_view(roles@),
            configs_view(result@) == occurrences(rv.subrange(0, i as int), masks),
        decreases roles.len() - i,
    {
        let ghost before = configs_view(result@);
        let role = &roles[i].0;
        let count = roles[i].1;
        if role.masks_role() == masks {
            let mut j: usize = 0;
            while j < count
                invariant
                    j <= count,
                    count == rv[i as int].1,
                    role@ == rv[i as int].0,
                    configs_view(result@) == before + Seq::new(j as nat, |_k: int| rv[i as int].0),
                decreases count - j,
            {
                let ghost prev = configs_view(result@);
                result.push(role.clone());
                proof {
                    assert(configs_view(result@) =~= prev.push(role@));
                    assert(Seq::new((j + 1) as nat, |_k: int| rv[i as int].0) =~= Seq::new(j as nat, |_k: int| rv[i as int].0).push(rv[i as int].0));
                }
                j = j + 1;
            }
        } else {
            assert(Seq::new(0, |_k: int| rv[i as int].0) =~= Seq::<RoleConfigView>::empty());
        }
        proof {
            assert(rv.subrange(0, i + 1).drop_last() =~= rv.subrange(0, i as int));
            assert(configs_view(result@) =~= occurrences(rv.subrange(0, i + 1), masks));
        }
        i = i + 1;
    }
    assert(rv.subrange(0, roles@.len() as int) =~= rv);
    result
}

/// Distributes the roles among the participants at random. Each masking role gets one
/// plain role drawn from what is left; the participants receive their roles from the
/// last one backwards, the masking roles first.
pub fn distribute_roles(participants: Vec<u64>, roles: Vec<(WereWolfRoleConfig, usize)>) -> (r: Result<
    Vec<(u64, WereWolfRoleInstance)>,
    DistributeError,
>)
    ensures
        distribution_outcome(participants@, counts_view(roles@), result_view(r)),
{
    let mut nested_roles = get_roles(&roles, true);
    let mut normal_roles = get_roles(&roles, false);
    let ghost nested = configs_view(nested_roles@);
    let ghost normal = configs_view(normal_roles@);
    proof {
        assert(nested == occurrences(counts_view(roles@), true));
    }
    if normal_roles.len() != participants.len() {
        return Err(DistributeError::MismatchedCount {
            available_roles: normal_roles.len(),
            player_count: participants.len(),
        });
    }
    if nested_roles.len() > normal_roles.len() {
        return Err(DistributeError::TooManyMaskedRoles {
            masking_roles: nested_roles.len(),
            normal_roles: normal_roles.len(),
        });
    }
    proof {
        occurrences_flag(counts_view(roles@), true);
        occurrences_flag(counts_view(roles@), false);
    }
    let ghost all_users = participants@;
    let ghost n = participants@.len();
    let ghost m = nested.len();
    let ghost mut outer: Seq<RoleConfigView> = Seq::empty();
    let ghost mut inner: Seq<RoleConfigView> = Seq::empty();
    let mut users = participants;
    let mut result: Vec<(u64, WereWolfRoleInstance)> = Vec::new();
    proof {
        assert(outer.to_multiset() =~= Multiset::empty());
        assert(inner.to_multiset() =~= Multiset::empty());
        assert(configs_view(nested_roles@) == nested);
    }
    while nested_roles.len() > 0
        invariant
            n == all_users.len(),
            m == nested.len(),
            users@ == all_users.subrange(0, n - result@.len()),
            result@.len() + normal_roles@.len() == n,
            result@.len() + nested_roles@.len() == m,
            nested_roles@.len() <= normal_roles@.len(),
            forall|i: int| 0 <= i < nested_roles@.len() ==> nested.contains(#[trigger] configs_view(nested_roles@)[i]),
            forall|i: int| 0 <= i < normal_roles@.len() ==> normal.contains(#[trigger] configs_view(normal_roles@)[i]),
            forall|i: int| 0 <= i < nested.len() ==> (#[trigger] nested[i]).masks_role,
            forall|i: int| 0 <= i < normal.len() ==> !(#[trigger] normal[i]).masks_role,
            forall|k: int| 0 <= k < result@.len() ==> (#[trigger] result@[k]).0 == all_users[n - 1 - k],
            outer.len() == result@.len(),
            inner.len() == result@.len(),
            forall|k: int| 0 <= k < result@.len() ==> (#[trigger] result@[k]).1@ == masking_of(outer[k], inner[k]),
            outer.to_multiset().add(configs_view(nested_roles@).to_multiset()) == nested.to_multiset(),
            inner.to_multiset().add(configs_view(normal_roles@).to_multiset()) == normal.to_multiset(),
        decreases nested_roles@.len(),
    {
        let ghost pre = configs_view(nested_roles@);
        let idx = random_below(nested_roles.len());
        let role = nested_roles.remove(idx);
        proof {
            assert(role@ == pre[idx as int]);
            assert(nested.contains(pre[idx as int]));
            remove_keeps_members(pre, idx as int, nested);
            assert(configs_view(nested_roles@) =~= pre.remove(idx as int));
            assert(pre.to_multiset().count(pre[idx as int]) > 0) by {
                assert(pre.contains(pre[idx as int]));
            }
            assert(outer.push(role@).to_multiset().add(configs_view(nested_roles@).to_multiset()) =~= nested.to_multiset());
            outer = outer.push(role@);
        }
        let user = users.pop().unwrap();
        let ghost pool = configs_view(normal_roles@);
        proof {
            assert forall|i: int| 0 <= i < pool.len() implies !(#[trigger] pool[i]).masks_role by {
                assert(normal.contains(pool[i]));
            }
            assert forall|i: int| 0 <= i < normal_roles@.len() implies !(#[trigger] normal_roles@[i])@.masks_role by {
                assert(pool[i] == normal_roles@[i]@);
            }
            let a = choose|a: int| 0 <= a < nested.len() && nested[a] == role@;
            assert(role@.masks_role);
        }
        let inst = role.to_instance(&mut normal_roles).unwrap();
        proof {
            let j = masked_pick(role@, pool, inst@, configs_view(normal_roles@));
            assert(normal_roles@.len() == configs_view(normal_roles@).len());
            assert(normal_roles@.len() == pool.len() - 1);
            remove_keeps_members(pool, j, normal);
            assert(pool.to_multiset().count(pool[j]) > 0) by {
                assert(pool.contains(pool[j]));
            }
            assert(inner.push(pool[j]).to_multiset().add(configs_view(normal_roles@).to_multiset()) =~= normal.to_multiset());
            inner = inner.push(pool[j]);
        }
        let ghost prev = result@;
        result.push((user, inst));
        proof {
            assert(all_users.subrange(0, n - result@.len()) =~= users@);
            assert forall|k: int| 0 <= k < result@.len() implies (#[trigger] result@[k]).1@ == masking_of(outer[k], inner[k]) by {
                if k < prev.len() {
                    assert(result@[k] == prev[k]);
                }
            }
        }
    }
    assert(result@.len() == m);
    let ghost mut plain: Seq<RoleConfigView> = Seq::empty();
    proof {
        assert(configs_view(nested_roles@) =~= Seq::<RoleConfigView>::empty());
        assert(outer.to_multiset() =~= nested.to_multiset());
        assert(plain.to_multiset() =~= Multiset::empty());
        assert(inner + plain =~= inner);
    }
    while normal_roles.len() > 0
        invariant
            n == all_users.len(),
            m == nested.len(),
            m <= result@.len(),
            users@ == all_users.subrange(0, n - result@.len()),
            result@.len() + normal_roles@.len() == n,
            forall|i: int| 0 <= i < normal_roles@.len() ==> normal.contains(#[trigger] configs_view(normal_roles@)[i]),
            forall|i: int| 0 <= i < normal.len() ==> !(#[trigger] normal[i]).masks_role,
            forall|k: int| 0 <= k < result@.len() ==> (#[trigger] result@[k]).0 == all_users[n - 1 - k],
            outer.len() == m,
            inner.len() == m,
            plain.len() == result@.len() - m,
            forall|k: int| 0 <= k < m ==> (#[trigger] result@[k]).1@ == masking_of(outer[k], inner[k]),
            forall|k: int| m <= k < result@.len() ==> (#[trigger] result@[k]).1@ == leaf_of(plain[k - m]),
            outer.to_multiset() == nested.to_multiset(),
            (inner + plain).to_multiset().add(configs_view(normal_roles@).to_multiset()) == normal.to_multiset(),
        decreases normal_roles@.len(),
    {
        let ghost pre = configs_view(normal_roles@);
        let idx = random_below(normal_roles.len());
        let role = normal_roles.remove(idx);
        proof {
            assert(role@ == pre[idx as int]);
            assert(normal.contains(pre[idx as int]));
            remove_keeps_members(pre, idx as int, normal);
            assert(configs_view(normal_roles@) =~= pre.remove(idx as int));
            assert((inner + plain).push(role@) =~= inner + plain.push(role@));
            assert(pre.to_multiset().count(pre[idx as int]) > 0) by {
                assert(pre.contains(pre[idx as int]));
            }
            assert((inner + plain.push(role@)).to_multiset().add(configs_view(normal_roles@).to_multiset()) =~= normal.to_multiset());
            plain = plain.push(role@);
        }
        let user = users.pop().unwrap();
        let ghost pool = configs_view(normal_roles@);
        let inst = role.to_instance(&mut normal_roles).unwrap();
        proof {
            plain_resolution(role@, pool, inst@, configs_view(normal_roles@));
        }
        let ghost prev = result@;
        result.push((user, inst));
        proof {
            assert(all_users.subrange(0, n - result@.len()) =~= users@);
            assert forall|k: int| 0 <= k < m implies (#[trigger] result@[k]).1@ == masking_of(outer[k], inner[k]) by {
                assert(result@[k] == prev[k]);
            }
            assert forall|k: int| m <= k < result@.len() implies (#[trigger] result@[k]).1@ == leaf_of(plain[k - m]) by {
                if k < prev.len() {
                    assert(result@[k] == prev[k]);
                }
            }
        }
    }
    let ghost rv = result@.map_values(|p: (u64, WereWolfRoleInstance)| (p.0, p.1@));
    proof {
        assert forall|k: int| 0 <= k < n implies (#[trigger] rv[k]).0 == all_users[n - 1 - k] by {
            assert(rv[k] == (result@[k].0, result@[k].1@));
        }
        assert forall|k: int| 0 <= k < m implies (#[trigger] rv[k]).1 == masking_of(outer[k], inner[k]) by {
            assert(rv[k] == (result@[k].0, result@[k].1@));
        }
        assert forall|k: int| m <= k < rv.len() implies (#[trigger] rv[k]).1 == leaf_of(plain[k - m]) by {
            assert(rv[k] == (result@[k].0, result@[k].1@));
        }
        assert(configs_view(normal_roles@) =~= Seq::<RoleConfigView>::empty());
        assert((inner + plain).to_multiset() =~= normal.to_multiset());
        assert(assigned_from(rv, outer, inner, plain));
    }
    Ok(result)
}

/// Removing an element keeps every remaining element a member of `outer`.
proof fn remove_keeps_members(s: Seq<RoleConfigView>, idx: int, outer: Seq<RoleConfigView>)
    requires
        0 <= idx < s.len(),
        forall|i: int| 0 <= i < s.len() ==> outer.contains(#[trigger] s[i]),
    ensures
        forall|i: int| 0 <= i < s.remove(idx).len() ==> outer.contains(#[trigger] s.remove(idx)[i]),
{
    assert forall|i: int| 0 <= i < s.remove(idx).len() implies outer.contains(#[trigger] s.remove(idx)[i]) by {
        if i < idx {
            assert(s.remove(idx)[i] == s[i]);
        } else {
            assert(s.remove(idx)[i] == s[i + 1]);
        }
    }
}

/// A plain role resolves to its leaf instance and leaves the pool alone.
proof fn plain_resolution(c: RoleConfigView, pool: Seq<RoleConfigView>, inst: RoleInstanceView, rest: Seq<RoleConfigView>)
    requires
        !c.masks_role,
        resolves(c, pool, inst, rest),
    ensures
        inst == leaf_of(c),
        rest == pool,
{
    let picks = choose|picks: Seq<int>| resolves_by(c, pool, inst, rest, picks);
}

/// A masking role resolved over a pool of plain roles holds one role taken out of it.
proof fn masked_pick(c: RoleConfigView, pool: Seq<RoleConfigView>, inst: RoleInstanceView, rest: Seq<RoleConfigView>) -> (j: int)
    requires
        c.masks_role,
        forall|i: int| 0 <= i < pool.len() ==> !(#[trigger] pool[i]).masks_role,
        resolves(c, pool, inst, rest),
    ensures
        0 <= j < pool.len(),
        inst == masking_of(c, pool[j]),
        rest == pool.remove(j),
{
    let picks = choose|picks: Seq<int>| resolves_by(c, pool, inst, rest, picks);
    let j = picks[0];
    let m = inst.masked_role->0;
    assert(resolves_by(pool[j], pool.remove(j), *m, rest, picks.drop_first()));
    assert(*m == leaf_of(pool[j]));
    j
}

/// Every occurrence of `occurrences(roles, masks)` has the masking flag `masks`.
proof fn occurrences_flag(roles: Seq<(RoleConfigView, usize)>, masks: bool)
    ensures
        forall|i: int| 0 <= i < occurrences(roles, masks).len() ==> (#[trigger] occurrences(roles, masks)[i]).masks_role == masks,
    decreases roles.len(),
{
    if roles.len() > 0 {
        occurrences_flag(roles.drop_last(), masks);
        let head = occurrences(roles.drop_last(), masks);
        let all = occurrences(roles, masks);
        assert forall|i: int| 0 <= i < all.len() implies (#[trigger] all[i]).masks_role == masks by {
            if i >= head.len() {
                assert(all[i] == roles.last().0);
            } else {
                assert(all[i] == head[i]);
            }
        }
    }
}

} // verus!
