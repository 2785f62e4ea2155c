//! Finding the first element of a list that satisfies a condition.
use vstd::prelude::*;

use crate::roles::{configs_view, RoleConfigView, WereWolfRoleConfig};

verus! {

/// The position of the first element of `s` that satisfies `f`, or -1 if none does.
pub open spec fn first_where<A>(s: Seq<A>, f: spec_fn(A) -> bool) -> int
    decreases s.len(),
{
    if s.len() == 0 {
        -1
    } else if f(s[0]) {
        0
    } else {
        let i = first_where(s.drop_first(), f);
        if i < 0 {
            -1
        } else {
            i + 1
        }
    }
}

/// The condition "is the user `u`".
pub open spec fn is_user(u: u64) -> spec_fn(u64) -> bool {
    |x: u64| x == u
}

/// The condition "has the emoji `e`".
pub open spec fn has_emoji(e: Seq<char>) -> spec_fn(RoleConfigView) -> bool {
    |c: RoleConfigView| c.emoji == e
}

/// The condition "has the name `n`".
pub open spec fn has_name(n: Seq<char>) -> spec_fn(RoleConfigView) -> bool {
    |c: RoleConfigView| c.name == n
}

/// The first match is the position where a scan from the front first succeeds.
pub proof fn first_where_at<A>(s: Seq<A>, f: spec_fn(A) -> bool, i: int)
    requires
        0 <= i <= s.len(),
        forall|j: int| 0 <= j < i ==> !f(#[trigger] s[j]),
        i < s.len() ==> f(s[i]),
    ensures
        first_where(s, f) == if i < s.len() {
            i
        } else {
            -1
        },
    decreases s.len(),
{
    if s.len() > 0 && i > 0 {
        let t = s.drop_first();
        assert forall|j: int| 0 <= j < i - 1 implies !f(#[trigger] t[j]) by {
            assert(t[j] == s[j + 1]);
        }
        first_where_at(t, f, i - 1);
    }
}

/// The first match is in range and satisfies the condition.
pub proof fn first_where_bounds<A>(s: Seq<A>, f: spec_fn(A) -> bool)
    ensures
        -1 <= first_where(s, f) < s.len(),
        first_where(s, f) >= 0 ==> f(s[first_where(s, f)]),
        first_where(s, f) < 0 ==> forall|j: int| 0 <= j < s.len() ==> !f(#[trigger] s[j]),
    decreases s.len(),
{
    if s.len() > 0 {
        first_where_bounds(s.drop_first(), f);
        if first_where(s, f) < 0 {
            assert forall|j: int| 0 <= j < s.len() implies !f(#[trigger] s[j]) by {
                if j > 0 {
                    assert(s[j] == s.drop_first()[j - 1]);
                }
            }
        }
    }
}

/// Where `u` first occurs in `v`.
pub fn position_of_user(v: &Vec<u64>, u: u64) -> (r: Option<usize>)
    ensures
        match r {
            Some(i) => i < v@.len() && i as int == first_where(v@, is_user(u)),
            None => first_where(v@, is_user(u)) == -1,
        },
{
    let mut i: usize = 0;
    while i < v.len()
        invariant
            i <= v@.len(),
            forall|j: int| 0 <= j < i ==> !is_user(u)(#[trigger] v@[j]),
        decreases v.len() - i,
    {
        if v[i] == u {
            proof {
                first_where_at(v@, is_user(u), i as int);
            }
            return Some(i);
        }
        i = i + 1;
    }
    proof {
        first_where_at(v@, is_user(u), i as int);
    }
    None
}

/// Where the first role with the emoji `e` stands in `v`.
pub fn position_by_emoji(v: &Vec<WereWolfRoleConfig>, e: &str) -> (r: Option<usize>)
    ensures
        match r {
            Some(i) => i < v@.len() && i as int == first_where(configs_view(v@), has_emoji(e@)),
            None => first_where(configs_view(v@), has_emoji(e@)) == -1,
        },
{
    let ghost s = configs_view(v@);
    let target = e.to_owned();
    let mut i: usize = 0;
    while i < v.len()
        invariant
            i <= v@.len(),
            s == configs_view(v@),
            target@ == e@,
            forall|j: int| 0 <= j < i ==> !has_emoji(e@)(#[trigger] s[j]),
        decreases v.len() - i,
    {
        let own = v[i].emoji().to_owned();
        if own == target {
            proof {
                first_where_at(s, has_emoji(e@), i as int);
            }
            return Some(i);
        }
        i = i + 1;
    }
    proof {
        first_where_at(s, has_emoji(e@), i as int);
    }
    None
}

/// Where the first role named `n` stands in `v`.
pub fn position_by_name(v: &Vec<WereWolfRoleConfig>, n: &str) -> (r: Option<usize>)
    ensures
        match r {
            Some(i) => i < v@.len() && i as int == first_where(configs_view(v@), has_name(n@)),
            None => first_where(configs_view(v@), has_name(n@)) == -1,
        },
{
    let ghost s = configs_view(v@);
    let target = n.to_owned();
    let mut i: usize = 0;
    while i < v.len()
        invariant
            i <= v@.len(),
            s == configs_view(v@),
            target@ == n@,
            forall|j: int| 0 <= j < i ==> !has_name(n@)(#[trigger] s[j]),
        decreases v.len() - i,
    {
        let own = v[i].name().to_owned();
        if own == target {
            proof {
                first_where_at(s, has_name(n@), i as int);
            }
            return Some(i);
        }
        i = i + 1;
    }
    proof {
        first_where_at(s, has_name(n@), i as int);
    }
    None
}

} // verus!
