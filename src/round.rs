//! The phases of one werewolf round and the decisions taken on each chat event.
//!
//! A round runs through registration, role selection, role headcounts, the game itself
//! and its end. `Round::step` decides what an event does without touching the round;
//! the caller performs the returned action and then applies the new phase. A
//! transition whose action fails is simply never applied, so the round stays in the
//! phase it was in.
use vstd::prelude::*;

use crate::cfg_reactions::{is_last_page, last_page_spec};
use crate::count::{parse_count, usize_text};
use crate::distribute::{counts_view, distribute_roles, distribution_outcome, result_view, DistributeError};
use crate::errors::TransitionError;
use crate::reactions::{reaction_text, ReactionView, Reactions};
use crate::roles::{configs_view, copy_configs, RoleConfigView, RoleInstanceView, WereWolfRoleConfig, WereWolfRoleInstance};
use crate::search::{first_where, has_emoji, has_name, is_user, position_by_emoji, position_by_name, position_of_user};

verus! {

/// Players register by reacting to the round's message.
#[derive(Debug)]
pub struct RegisterUsers {
    pub participants: Vec<u64>,
}

/// The moderators pick the roles of the round, page by page.
#[derive(Debug)]
pub struct RegisterRoles {
    pub participants: Vec<u64>,
    pub roles: Vec<WereWolfRoleConfig>,
    pub role_page: usize,
}

/// Waiting for the headcount of every multiplayer role.
#[derive(Debug)]
pub struct RoleCounts {
    pub participants: Vec<u64>,
    pub roles: Vec<(WereWolfRoleConfig, usize)>,
    pub role_messages: Vec<WereWolfRoleConfig>,
}

/// The game is running with the given assignment of roles.
#[derive(Debug)]
pub struct Ongoing {
    pub participants: Vec<(u64, WereWolfRoleInstance)>,
}

/// The round is over.
#[derive(Debug)]
pub struct Done {}

/// The phase a round is in.
#[derive(Debug)]
pub enum RoundSM {
    RegisterUsers(RegisterUsers),
    RegisterRoles(RegisterRoles),
    RoleCounts(RoleCounts),
    Ongoing(Ongoing),
    Done(Done),
}

/// A phase as plain values.
#[allow(inconsistent_fields)]
pub enum PhaseView {
    RegisterUsers { participants: Seq<u64> },
    RegisterRoles { participants: Seq<u64>, roles: Seq<RoleConfigView>, page: int },
    RoleCounts { participants: Seq<u64>, roles: Seq<(RoleConfigView, usize)>, pending: Seq<RoleConfigView> },
    Ongoing { assignment: Seq<(u64, RoleInstanceView)> },
    Done,
}

/// The plain values of an assignment of roles.
pub open spec fn assignment_view(v: Seq<(u64, WereWolfRoleInstance)>) -> Seq<(u64, RoleInstanceView)> {
    v.map_values(|p: (u64, WereWolfRoleInstance)| (p.0, p.1@))
}

impl View for RoundSM {
    type V = PhaseView;

    open spec fn view(&self) -> PhaseView {
        match self {
            RoundSM::RegisterUsers(s) => PhaseView::RegisterUsers { participants: s.participants@ },
            RoundSM::RegisterRoles(s) => PhaseView::RegisterRoles {
                participants: s.participants@,
                roles: configs_view(s.roles@),
                page: s.role_page as int,
            },
            RoundSM::RoleCounts(s) => PhaseView::RoleCounts {
                participants: s.participants@,
                roles: counts_view(s.roles@),
                pending: configs_view(s.role_messages@),
            },
            RoundSM::Ongoing(s) => PhaseView::Ongoing { assignment: assignment_view(s.participants@) },
            RoundSM::Done(_) => PhaseView::Done,
        }
    }
}

/// A chat event addressed to a round.
#[derive(Debug)]
pub enum Event {
    /// `user` reacted with `emoji`.
    AddReaction { user: u64, emoji: String },
    /// `user` took back the reaction `emoji`.
    RemoveReaction { user: u64, emoji: String },
    /// `author` answered the headcount question of the role named `role`.
    Reply { author: u64, role: String, content: String },
    /// A sub-task finished; the round should look at its barrier again.
    Notify,
}

/// What the caller has to do on the chat platform for a decision.
#[derive(Debug)]
pub enum Action {
    /// Nothing.
    Nothing,
    /// Show the role selection at the given page.
    ShowRoleSelection { page: usize },
    /// Ask for the headcount of each of these roles; with none to ask, send `Notify`.
    AskRoleCounts { roles: Vec<WereWolfRoleConfig> },
    /// Remove the answered headcount question of the role named `role`.
    RemoveQuestion { role: String },
    /// Create the channels and permissions of the new assignment.
    SetupRound,
    /// Tear the round's channels and permissions down and post the closing message.
    Teardown,
}

/// An action as plain values.
pub enum ActionView {
    Nothing,
    ShowRoleSelection { page: usize },
    AskRoleCounts { roles: Seq<RoleConfigView> },
    RemoveQuestion { role: Seq<char> },
    SetupRound,
    Teardown,
}

impl View for Action {
    type V = ActionView;

    open spec fn view(&self) -> ActionView {
        match self {
            Action::Nothing => ActionView::Nothing,
            Action::ShowRoleSelection { page } => ActionView::ShowRoleSelection { page: *page },
            Action::AskRoleCounts { roles } => ActionView::AskRoleCounts { roles: configs_view(roles@) },
            Action::RemoveQuestion { role } => ActionView::RemoveQuestion { role: role@ },
            Action::SetupRound => ActionView::SetupRound,
            Action::Teardown => ActionView::Teardown,
        }
    }
}

/// The decision taken on one event.
#[derive(Debug)]
pub enum Step {
    /// The event is ignored; nothing changes.
    Stay,
    /// The phase keeps its kind but its data changes: apply it, then perform the action.
    Update(RoundSM, Action),
    /// The round moves to the next phase: perform the action, and apply the phase only
    /// if the action succeeded.
    Advance(RoundSM, Action),
    /// The transition failed; the round stays where it is.
    Fail(TransitionError),
}

/// A decision as plain values.
pub enum StepView {
    Stay,
    Update(PhaseView, ActionView),
    Advance(PhaseView, ActionView),
    Fail(Option<DistributeError>),
}

impl View for Step {
    type V = StepView;

    open spec fn view(&self) -> StepView {
        match self {
            Step::Stay => StepView::Stay,
            Step::Update(p, a) => StepView::Update(p@, a@),
            Step::Advance(p, a) => StepView::Advance(p@, a@),
            Step::Fail(TransitionError::Distribute(e)) => StepView::Fail(Some(*e)),
            Step::Fail(_) => StepView::Fail(None),
        }
    }
}

/// `e` is the emoji of the reaction `r`.
pub open spec fn emoji_is(e: Seq<char>, r: ReactionView) -> bool {
    e == reaction_text(r)
}

/// `u` is one of the moderators.
pub open spec fn is_mod(mods: Seq<u64>, u: u64) -> bool {
    first_where(mods, is_user(u)) >= 0
}

/// The selected roles that need a headcount question: the multiplayer ones.
pub open spec fn multi_roles(sel: Seq<RoleConfigView>) -> Seq<RoleConfigView>
    decreases sel.len(),
{
    if sel.len() == 0 {
        Seq::empty()
    } else if sel.last().multi_player {
        multi_roles(sel.drop_last()).push(sel.last())
    } else {
        multi_roles(sel.drop_last())
    }
}

/// The selected single-player roles, each with headcount one.
pub open spec fn single_counts(sel: Seq<RoleConfigView>) -> Seq<(RoleConfigView, usize)>
    decreases sel.len(),
{
    if sel.len() == 0 {
        Seq::empty()
    } else if sel.last().multi_player {
        single_counts(sel.drop_last())
    } else {
        single_counts(sel.drop_last()).push((sel.last(), 1usize))
    }
}

/// What an event does during registration.
pub open spec fn register_users_step(mods: Seq<u64>, p: Seq<u64>, ev: Event) -> StepView {
    match ev {
        Event::AddReaction { user, emoji } => if emoji_is(emoji@, ReactionView::Entry) {
            StepView::Update(PhaseView::RegisterUsers { participants: p.push(user) }, ActionView::Nothing)
        } else if emoji_is(emoji@, ReactionView::Confirm) && is_mod(mods, user) && p.len() > 0 {
            StepView::Advance(
                PhaseView::RegisterRoles { participants: p, roles: Seq::empty(), page: 0 },
                ActionView::ShowRoleSelection { page: 0 },
            )
        } else {
            StepView::Stay
        },
        Event::RemoveReaction { user, emoji } => if emoji_is(emoji@, ReactionView::Entry)
            && first_where(p, is_user(user)) >= 0 {
            StepView::Update(
                PhaseView::RegisterUsers { participants: p.remove(first_where(p, is_user(user))) },
                ActionView::Nothing,
            )
        } else {
            StepView::Stay
        },
        _ => StepView::Stay,
    }
}

/// What an event does during role selection. Anyone may add a role by its emoji;
/// removing roles, turning pages and confirming are for moderators.
pub open spec fn register_roles_step(
    mods: Seq<u64>,
    configs: Seq<RoleConfigView>,
    p: Seq<u64>,
    sel: Seq<RoleConfigView>,
    page: int,
    ev: Event,
) -> StepView {
    match ev {
        Event::AddReaction { user, emoji } => if emoji_is(emoji@, ReactionView::PreviousPage) {
            if is_mod(mods, user) && page > 0 {
                StepView::Update(
                    PhaseView::RegisterRoles { participants: p, roles: sel, page: page - 1 },
                    ActionView::ShowRoleSelection { page: (page - 1) as usize },
                )
            } else {
                StepView::Stay
            }
        } else if emoji_is(emoji@, ReactionView::NextPage) {
            if is_mod(mods, user) && !last_page_spec(configs.len() as int, page) {
                StepView::Update(
                    PhaseView::RegisterRoles { participants: p, roles: sel, page: page + 1 },
                    ActionView::ShowRoleSelection { page: (page + 1) as usize },
                )
            } else {
                StepView::Stay
            }
        } else if emoji_is(emoji@, ReactionView::Confirm) {
            if is_mod(mods, user) {
                StepView::Advance(
                    PhaseView::RoleCounts { participants: p, roles: single_counts(sel), pending: multi_roles(sel) },
                    ActionView::AskRoleCounts { roles: multi_roles(sel) },
                )
            } else {
                StepView::Stay
            }
        } else {
            let i = first_where(configs, has_emoji(emoji@));
            if i >= 0 && first_where(sel, has_name(configs[i].name)) < 0 {
                StepView::Update(
                    PhaseView::RegisterRoles { participants: p, roles: sel.push(configs[i]), page },
                    ActionView::Nothing,
                )
            } else {
                StepView::Stay
            }
        },
        Event::RemoveReaction { user, emoji } => {
            let i = first_where(configs, has_emoji(emoji@));
            if is_mod(mods, user) && i >= 0 && first_where(sel, has_name(configs[i].name)) >= 0 {
                StepView::Update(
                    PhaseView::RegisterRoles {
                        participants: p,
                        roles: sel.remove(first_where(sel, has_name(configs[i].name))),
                        page,
                    },
                    ActionView::Nothing,
                )
            } else {
                StepView::Stay
            }
        },
        _ => StepView::Stay,
    }
}

/// The decision at the barrier of the headcount phase: the roles are distributed and
/// the game starts, or the distribution error is reported.
pub open spec fn barrier_step(p: Seq<u64>, roles: Seq<(RoleConfigView, usize)>, r: StepView) -> bool {
    match r {
        StepView::Advance(PhaseView::Ongoing { assignment }, ActionView::SetupRound) => distribution_outcome(
            p,
            roles,
            Ok(assignment),
        ),
        StepView::Fail(Some(e)) => distribution_outcome(p, roles, Err(e)),
        _ => false,
    }
}

/// The headcount phase after the question of `pending[j]` was answered with `count`.
pub open spec fn answered(
    roles: Seq<(RoleConfigView, usize)>,
    pending: Seq<RoleConfigView>,
    j: int,
    count: usize,
) -> (Seq<(RoleConfigView, usize)>, Seq<RoleConfigView>) {
    (roles.push((pending[j], count)), pending.remove(j))
}

/// What an event does while headcounts are collected. A reply from a moderator to a
/// pending question with a positive integer resolves it; once nothing is pending, the
/// barrier decides (`barrier_step`).
pub open spec fn role_counts_step(
    mods: Seq<u64>,
    p: Seq<u64>,
    roles: Seq<(RoleConfigView, usize)>,
    pending: Seq<RoleConfigView>,
    ev: Event,
    r: StepView,
) -> bool {
    match ev {
        Event::Reply { author, role, content } => {
            let j = first_where(pending, has_name(role@));
            let c = usize_text(content@);
            if is_mod(mods, author) && j >= 0 && c is Some && c->0 >= 1 {
                let (roles2, pending2) = answered(roles, pending, j, c->0);
                if pending2.len() > 0 {
                    r == StepView::Update(
                        PhaseView::RoleCounts { participants: p, roles: roles2, pending: pending2 },
                        ActionView::RemoveQuestion { role: role@ },
                    )
                } else {
                    barrier_step(p, roles2, r)
                }
            } else {
                r == StepView::Stay
            }
        },
        Event::Notify => if pending.len() == 0 {
            barrier_step(p, roles, r)
        } else {
            r == StepView::Stay
        },
        _ => r == StepView::Stay,
    }
}

/// What an event does while the game runs: a moderator's stop ends it.
pub open spec fn ongoing_step(mods: Seq<u64>, ev: Event) -> StepView {
    match ev {
        Event::AddReaction { user, emoji } => if is_mod(mods, user) && emoji_is(emoji@, ReactionView::Stop) {
            StepView::Advance(PhaseView::Done, ActionView::Teardown)
        } else {
            StepView::Stay
        },
        _ => StepView::Stay,
    }
}

/// What `ev` does to a round with the given moderators, selectable roles and phase.
pub open spec fn round_step(
    mods: Seq<u64>,
    configs: Seq<RoleConfigView>,
    phase: PhaseView,
    ev: Event,
    r: StepView,
) -> bool {
    match phase {
        PhaseView::RegisterUsers { participants } => r == register_users_step(mods, participants, ev),
        PhaseView::RegisterRoles { participants, roles, page } => r == register_roles_step(
            mods,
            configs,
            participants,
            roles,
            page,
            ev,
        ),
        PhaseView::RoleCounts { participants, roles, pending } => role_counts_step(
            mods,
            participants,
            roles,
            pending,
            ev,
            r,
        ),
        PhaseView::Ongoing { .. } => r == ongoing_step(mods, ev),
        PhaseView::Done => r == StepView::Stay,
    }
}

/// A copy of a list of user ids.
fn copy_users(v: &Vec<u64>) -> (r: Vec<u64>)
    ensures
        r@ == v@,
{
    let mut r: Vec<u64> = Vec::new();
    let mut i: usize = 0;
    while i < v.len()
        invariant
            i <= v@.len(),
            r@ == v@.subrange(0, i as int),
        decreases v.len() - i,
    {
        r.push(v[i]);
        i = i + 1;
    }
    assert(r@ =~= v@);
    r
}

/// A copy of a list of (role, headcount) pairs.
fn copy_counts(v: &Vec<(WereWolfRoleConfig, usize)>) -> (r: Vec<(WereWolfRoleConfig, usize)>)
    ensures
        counts_view(r@) == counts_view(v@),
{
    let mut r: Vec<(WereWolfRoleConfig, usize)> = Vec::new();
    let mut i: usize = 0;
    while i < v.len()
        invariant
            i <= v@.len(),
            counts_view(r@) == counts_view(v@).subrange(0, i as int),
        decreases v.len() - i,
    {
        let ghost prev = counts_view(r@);
        r.push((v[i].0.clone(), v[i].1));
        assert(counts_view(r@) =~= prev.push((v@[i as int].0@, v@[i as int].1)));
        assert(counts_view(v@).subrange(0, i + 1) =~= counts_view(v@).subrange(0, i as int).push((v@[i as int].0@, v@[i as int].1)));
        i = i + 1;
    }
    assert(counts_view(v@).subrange(0, v@.len() as int) =~= counts_view(v@));
    r
}

/// Whether `u` is one of the moderators.
fn is_moderator(mods: &Vec<u64>, u: u64) -> (b: bool)
    ensures
        b == is_mod(mods@, u),
{
    match position_of_user(mods, u) {
        Some(_) => true,
        None => false,
    }
}

/// Decides an event during registration.
fn step_register_users(mods: &Vec<u64>, p: &Vec<u64>, ev: &Event) -> (r: Step)
    ensures
        r@ == register_users_step(mods@, p@, *ev),
{
    match ev {
        Event::AddReaction { user, emoji } => {
            if Reactions::Entry.matches_emoji(emoji) {
                let mut np = copy_users(p);
                np.push(*user);
                Step::Update(RoundSM::RegisterUsers(RegisterUsers { participants: np }), Action::Nothing)
            } else if Reactions::Confirm.matches_emoji(emoji) && is_moderator(mods, *user) && p.len() > 0 {
                let next = RegisterRoles { participants: copy_users(p), roles: Vec::new(), role_page: 0 };
                proof {
                    assert(configs_view(next.roles@) =~= Seq::<RoleConfigView>::empty());
                }
                Step::Advance(RoundSM::RegisterRoles(next), Action::ShowRoleSelection { page: 0 })
            } else {
                Step::Stay
            }
        },
        Event::RemoveReaction { user, emoji } => {
            if Reactions::Entry.matches_emoji(emoji) {
                match position_of_user(p, *user) {
                    Some(i) => {
                        let mut np = copy_users(p);
                        np.remove(i);
                        Step::Update(RoundSM::RegisterUsers(RegisterUsers { participants: np }), Action::Nothing)
                    },
                    None => Step::Stay,
                }
            } else {
                Step::Stay
            }
        },
        _ => Step::Stay,
    }
}

/// Splits the selection into the single-player roles with headcount one and the
/// multiplayer roles that need a question.
fn split_selection(sel: &Vec<WereWolfRoleConfig>) -> (r: (Vec<(WereWolfRoleConfig, usize)>, Vec<WereWolfRoleConfig>))
    ensures
        counts_view(r.0@) == single_counts(configs_view(sel@)),
        configs_view(r.1@) == multi_roles(configs_view(sel@)),
{
    let ghost sv = configs_view(sel@);
    let mut singles: Vec<(WereWolfRoleConfig, usize)> = Vec::new();
    let mut multis: Vec<WereWolfRoleConfig> = Vec::new();
    let mut i: usize = 0;
    while i < sel.len()
        invariant
            i <= sel@.len(),
            sv == configs_view(sel@),
            counts_view(singles@) == single_counts(sv.subrange(0, i as int)),
            configs_view(multis@) == multi_roles(sv.subrange(0, i as int)),
        decreases sel.len() - i,
    {
        let ghost s0 = counts_view(singles@);
        let ghost m0 = configs_view(multis@);
        if sel[i].multi_player() {
            multis.push(sel[i].clone());
            assert(configs_view(multis@) =~= m0.push(sv[i as int]));
        } else {
            singles.push((sel[i].clone(), 1));
            assert(counts_view(singles@) =~= s0.push((sv[i as int], 1usize)));
        }
        assert(sv.subrange(0, i + 1).drop_last() =~= sv.subrange(0, i as int));
        i = i + 1;
    }
    assert(sv.subrange(0, sel@.len() as int) =~= sv);
    (singles, multis)
}

/// Decides an event during role selection.
fn step_register_roles(mods: &Vec<u64>, configs: &Vec<WereWolfRoleConfig>, st: &RegisterRoles, ev: &Event) -> (r: Step)
    ensures
        r@ == register_roles_step(
            mods@,
            configs_view(configs@),
            st.participants@,
            configs_view(st.roles@),
            st.role_page as int,
            *ev,
        ),
{
    let ghost cv = configs_view(configs@);
    let ghost sel = configs_view(st.roles@);
    match ev {
        Event::AddReaction { user, emoji } => {
            if Reactions::PreviousPage.matches_emoji(emoji) {
                if is_moderator(mods, *user) && st.role_page > 0 {
                    let page = st.role_page - 1;
                    let next = RegisterRoles { participants: copy_users(&st.participants), roles: copy_configs(&st.roles), role_page: page };
                    Step::Update(RoundSM::RegisterRoles(next), Action::ShowRoleSelection { page })
                } else {
                    Step::Stay
                }
            } else if Reactions::NextPage.matches_emoji(emoji) {
                if is_moderator(mods, *user) && !is_last_page(configs.len(), st.role_page) {
                    proof {
                        assert(st.role_page + 1 <= configs@.len()) by (nonlinear_arith)
                            requires
                                !(configs@.len() == 0 || st.role_page >= (configs@.len() - 1) / 17),
                        ;
                    }
                    let page = st.role_page + 1;
                    let next = RegisterRoles { participants: copy_users(&st.participants), roles: copy_configs(&st.roles), role_page: page };
                    Step::Update(RoundSM::RegisterRoles(next), Action::ShowRoleSelection { page })
                } else {
                    Step::Stay
                }
            } else if Reactions::Confirm.matches_emoji(emoji) {
                if is_moderator(mods, *user) {
                    let (singles, multis) = split_selection(&st.roles);
                    let ask = copy_configs(&multis);
                    let next = RoleCounts { participants: copy_users(&st.participants), roles: singles, role_messages: multis };
                    Step::Advance(RoundSM::RoleCounts(next), Action::AskRoleCounts { roles: ask })
                } else {
                    Step::Stay
                }
            } else {
                match position_by_emoji(configs, emoji.as_str()) {
                    Some(i) => {
                        match position_by_name(&st.roles, configs[i].name()) {
                            Some(_) => Step::Stay,
                            None => {
                                let mut roles = copy_configs(&st.roles);
                                let ghost before = configs_view(roles@);
                                roles.push(configs[i].clone());
                                assert(configs_view(roles@) =~= before.push(cv[i as int]));
                                let next = RegisterRoles { participants: copy_users(&st.participants), roles, role_page: st.role_page };
                                Step::Update(RoundSM::RegisterRoles(next), Action::Nothing)
                            },
                        }
                    },
                    None => Step::Stay,
                }
            }
        },
        Event::RemoveReaction { user, emoji } => {
            let found = position_by_emoji(configs, emoji.as_str());
            if !is_moderator(mods, *user) {
                Step::Stay
            } else {
                match found {
                    Some(i) => {
                        match position_by_name(&st.roles, configs[i].name()) {
                            Some(j) => {
                                let mut roles = copy_configs(&st.roles);
                                let ghost before = configs_view(roles@);
                                roles.remove(j);
                                assert(configs_view(roles@) =~= before.remove(j as int));
                                let next = RegisterRoles { participants: copy_users(&st.participants), roles, role_page: st.role_page };
                                Step::Update(RoundSM::RegisterRoles(next), Action::Nothing)
                            },
                            None => Step::Stay,
                        }
                    },
                    None => Step::Stay,
                }
            }
        },
        _ => Step::Stay,
    }
}

/// Distributes the roles and starts the game, or reports why that failed.
fn start_round(p: &Vec<u64>, roles: Vec<(WereWolfRoleConfig, usize)>) -> (r: Step)
    ensures
        barrier_step(p@, counts_view(roles@), r@),
{
    let res = distribute_roles(copy_users(p), roles);
    match res {
        Ok(a) => {
            let ghost av = assignment_view(a@);
            assert(result_view(res) == Ok::<Seq<(u64, RoleInstanceView)>, DistributeError>(av));
            Step::Advance(RoundSM::Ongoing(Ongoing { participants: a }), Action::SetupRound)
        },
        Err(e) => Step::Fail(TransitionError::Distribute(e)),
    }
}

/// Decides an event while headcounts are collected.
fn step_role_counts(mods: &Vec<u64>, st: &RoleCounts, ev: &Event) -> (r: Step)
    ensures
        role_counts_step(mods@, st.participants@, counts_view(st.roles@), configs_view(st.role_messages@), *ev, r@),
{
    let ghost pv = configs_view(st.role_messages@);
    let ghost rv = counts_view(st.roles@);
    match ev {
        Event::Reply { author, role, content } => {
            if !is_moderator(mods, *author) {
                return Step::Stay;
            }
            let j = match position_by_name(&st.role_messages, role.as_str()) {
                Some(j) => j,
                None => return Step::Stay,
            };
            let c = match parse_count(content.as_str()) {
                Some(c) => c,
                None => return Step::Stay,
            };
            let mut roles = copy_counts(&st.roles);
            roles.push((st.role_messages[j].clone(), c));
            assert(counts_view(roles@) =~= rv.push((pv[j as int], c)));
            let mut pending = copy_configs(&st.role_messages);
            let ghost before = configs_view(pending@);
            pending.remove(j);
            assert(configs_view(pending@) =~= before.remove(j as int));
            if pending.len() > 0 {
                let next = RoleCounts { participants: copy_users(&st.participants), roles, role_messages: pending };
                Step::Update(RoundSM::RoleCounts(next), Action::RemoveQuestion { role: role.clone() })
            } else {
                start_round(&st.participants, roles)
            }
        },
        Event::Notify => {
            if st.role_messages.len() == 0 {
                start_round(&st.participants, copy_counts(&st.roles))
            } else {
                Step::Stay
            }
        },
        _ => Step::Stay,
    }
}

/// Decides an event while the game runs.
fn step_ongoing(mods: &Vec<u64>, ev: &Event) -> (r: Step)
    ensures
        r@ == ongoing_step(mods@, *ev),
{
    match ev {
        Event::AddReaction { user, emoji } => {
            if is_moderator(mods, *user) && Reactions::Stop.matches_emoji(emoji) {
                Step::Advance(RoundSM::Done(Done {}), Action::Teardown)
            } else {
                Step::Stay
            }
        },
        _ => Step::Stay,
    }
}

impl RoundSM {
    /// Whether the round is over.
    pub fn is_done(&self) -> (b: bool)
        ensures
            b == (self@ is Done),
    {
        match self {
            RoundSM::Done(_) => true,
            _ => false,
        }
    }
}

/// One round of werewolf in one group.
pub struct Round {
    mods: Vec<u64>,
    role_configs: Vec<WereWolfRoleConfig>,
    sm: RoundSM,
}

impl Round {
    /// The moderators of the round.
    pub closed spec fn mods_spec(&self) -> Seq<u64> {
        self.mods@
    }

    /// The roles that can be selected for the round.
    pub closed spec fn configs_spec(&self) -> Seq<RoleConfigView> {
        configs_view(self.role_configs@)
    }

    /// The phase the round is in.
    pub closed spec fn phase(&self) -> PhaseView {
        self.sm@
    }

    /// A round in registration, with no participants yet.
    pub fn new(mods: Vec<u64>, role_configs: Vec<WereWolfRoleConfig>) -> (r: Self)
        ensures
            r.mods_spec() == mods@,
            r.configs_spec() == configs_view(role_configs@),
            r.phase() == (PhaseView::RegisterUsers { participants: Seq::empty() }),
    {
        let participants: Vec<u64> = Vec::new();
        assert(participants@ =~= Seq::<u64>::empty());
        Round { mods, role_configs, sm: RoundSM::RegisterUsers(RegisterUsers { participants }) }
    }

    /// What the event does to the round; the round itself is left as it is.
    pub fn step(&self, ev: &Event) -> (r: Step)
        ensures
            round_step(self.mods_spec(), self.configs_spec(), self.phase(), *ev, r@),
    {
        match &self.sm {
            RoundSM::RegisterUsers(st) => step_register_users(&self.mods, &st.participants, ev),
            RoundSM::RegisterRoles(st) => step_register_roles(&self.mods, &self.role_configs, st, ev),
            RoundSM::RoleCounts(st) => step_role_counts(&self.mods, st, ev),
            RoundSM::Ongoing(_) => step_ongoing(&self.mods, ev),
            RoundSM::Done(_) => Step::Stay,
        }
    }

    /// Moves the round to the given phase (after its action succeeded).
    pub fn apply(&mut self, sm: RoundSM)
        ensures
            final(self).phase() == sm@,
            final(self).mods_spec() == old(self).mods_spec(),
            final(self).configs_spec() == old(self).configs_spec(),
    {
        self.sm = sm;
    }

    /// The current phase.
    pub fn state(&self) -> (r: &RoundSM)
        ensures
            r@ == self.phase(),
    {
        &self.sm
    }

    /// Whether the round is over.
    pub fn is_done(&self) -> (b: bool)
        ensures
            b == (self.phase() is Done),
    {
        self.sm.is_done()
    }
}

} // verus!
