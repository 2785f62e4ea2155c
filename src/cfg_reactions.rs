//! The paged role-selection message: which reactions each page carries, and its text.
use vstd::prelude::*;
use vstd::string::StringExecFns;

use crate::reactions::{reaction_text, ReactionView, Reactions};
use crate::roles::{configs_view, RoleConfigView, WereWolfRoleConfig};

verus! {

/// How many roles one page of the selection message offers.
pub const MAX_REACTIONS: usize = 17;

/// The last page holds the last role; with no roles the first page is the last.
pub open spec fn last_page_spec(role_count: int, page: int) -> bool {
    role_count == 0 || page >= (role_count - 1) / (MAX_REACTIONS as int)
}

/// Whether `page` is the last page of a selection among `role_count` roles.
pub fn is_last_page(role_count: usize, page: usize) -> (r: bool)
    ensures
        r == last_page_spec(role_count as int, page as int),
{
    if role_count == 0 {
        return true;
    }
    page >= (role_count - 1) / MAX_REACTIONS
}

/// The first role position shown on `page` (the end of the list when the page is past it).
pub open spec fn page_start(len: int, page: int) -> int {
    if page * (MAX_REACTIONS as int) <= len {
        page * (MAX_REACTIONS as int)
    } else {
        len
    }
}

/// One past the last role position shown on `page`.
pub open spec fn page_end(len: int, page: int) -> int {
    if page_start(len, page) + (MAX_REACTIONS as int) <= len {
        page_start(len, page) + (MAX_REACTIONS as int)
    } else {
        len
    }
}

/// The reactions of one page: "previous page" unless it is the first page, the emojis of
/// the page's roles, "next page" unless it is the last page, then "confirm".
pub open spec fn page_reactions(roles: Seq<RoleConfigView>, page: int) -> Seq<ReactionView> {
    let len = roles.len() as int;
    (if page > 0 {
        seq![ReactionView::PreviousPage]
    } else {
        Seq::empty()
    }) + roles.subrange(page_start(len, page), page_end(len, page)).map_values(
        |r: RoleConfigView| ReactionView::Custom(r.emoji),
    ) + (if !last_page_spec(len, page) {
        seq![ReactionView::NextPage]
    } else {
        Seq::empty()
    }) + seq![ReactionView::Confirm]
}

/// The views of a list of reactions.
pub open spec fn reactions_view(v: Seq<Reactions>) -> Seq<ReactionView> {
    v.map_values(|r: Reactions| r@)
}

/// The reactions for the given page of the role selection.
pub fn reactions(roles: &[WereWolfRoleConfig], page: usize) -> (r: Vec<Reactions>)
    ensures
        reactions_view(r@) == page_reactions(configs_view(roles@), page as int),
{
    let ghost rv = configs_view(roles@);
    let mut result: Vec<Reactions> = Vec::new();
    if page > 0 {
        result.push(Reactions::PreviousPage);
    }
    let ghost head = reactions_view(result@);
    let len = roles.len();
    let start: usize = if page <= len / MAX_REACTIONS {
        page * MAX_REACTIONS
    } else {
        len
    };
    let end: usize = if len >= MAX_REACTIONS && start <= len - MAX_REACTIONS {
        start + MAX_REACTIONS
    } else {
        len
    };
    assert(start as int == page_start(len as int, page as int)) by (nonlinear_arith)
        requires
            page <= len / 17 ==> start == page * 17,
            !(page <= len / 17) ==> start == len,
            page_start(len as int, page as int) == (if page * 17 <= len { page * 17 } else { len as int }),
            len >= 0,
    ;
    let mut i: usize = start;
    while i < end
        invariant
            start <= i <= end <= len,
            len == roles@.len(),
            rv == configs_view(roles@),
            reactions_view(result@) == head + rv.subrange(start as int, i as int).map_values(
                |c: RoleConfigView| ReactionView::Custom(c.emoji),
            ),
        decreases end - i,
    {
        let ghost prev = result@;
        result.push(Reactions::Custom(roles[i].emoji().to_owned()));
        proof {
            assert(rv.subrange(start as int, i + 1) =~= rv.subrange(start as int, i as int).push(rv[i as int]));
            assert(reactions_view(result@) =~= reactions_view(prev).push(ReactionView::Custom(rv[i as int].emoji)));
            assert(rv.subrange(start as int, i + 1).map_values(|c: RoleConfigView| ReactionView::Custom(c.emoji))
                =~= rv.subrange(start as int, i as int).map_values(|c: RoleConfigView| ReactionView::Custom(c.emoji)).push(ReactionView::Custom(rv[i as int].emoji)));
        }
        i = i + 1;
    }
    let ghost mid = reactions_view(result@);
    if !is_last_page(len, page) {
        result.push(Reactions::NextPage);
    }
    let ghost tail = reactions_view(result@);
    result.push(Reactions::Confirm);
    proof {
        if !last_page_spec(len as int, page as int) {
            assert(tail =~= mid.push(ReactionView::NextPage));
        } else {
            assert(tail =~= mid);
        }
        assert(reactions_view(result@) =~= tail.push(ReactionView::Confirm));
        assert(reactions_view(result@) =~= page_reactions(rv, page as int));
    }
    result
}

/// The text of the role-selection message: a title line, one line per role with its
/// emoji and name, then how to move between the pages.
pub open spec fn roles_msg_text(roles: Seq<RoleConfigView>) -> Seq<char>
    decreases roles.len(),
{
    if roles.len() == 0 {
        "Select all Roles to use:\n"@
    } else {
        roles_msg_text(roles.drop_last()) + roles.last().emoji + ": "@ + roles.last().name + "\n"@
    }
}

/// The full role-selection message for the given roles.
pub open spec fn roles_msg_spec(roles: Seq<RoleConfigView>) -> Seq<char> {
    roles_msg_text(roles) + "Use "@ + reaction_text(ReactionView::PreviousPage) + " and "@
        + reaction_text(ReactionView::NextPage) + " to navigate between the Pages"@
}

/// Builds the role-selection message.
pub fn get_roles_msg(roles: &[WereWolfRoleConfig]) -> (r: String)
    ensures
        r@ == roles_msg_spec(configs_view(roles@)),
{
    let ghost rv = configs_view(roles@);
    let mut msg = <String as StringExecFns>::from_str("Select all Roles to use:\n");
    let mut i: usize = 0;
    while i < roles.len()
        invariant
            i <= roles@.len(),
            rv == configs_view(roles@),
            msg@ == roles_msg_text(rv.subrange(0, i as int)),
        decreases roles.len() - i,
    {
        msg.append(roles[i].emoji());
        msg.append(": ");
        msg.append(roles[i].name());
        msg.append("\n");
        proof {
            assert(rv.subrange(0, i + 1).drop_last() =~= rv.subrange(0, i as int));
        }
        i = i + 1;
    }
    assert(rv.subrange(0, roles@.len() as int) =~= rv);
    msg.append("Use ");
    msg.append(Reactions::PreviousPage.to_str());
    msg.append(" and ");
    msg.append(Reactions::NextPage.to_str());
    msg.append(" to navigate between the Pages");
    msg
}

} // verus!
