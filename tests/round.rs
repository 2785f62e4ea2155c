use werewolf::count::parse_count;
use werewolf::distribute::DistributeError;
use werewolf::errors::TransitionError;
use werewolf::reactions::Reactions;
use werewolf::roles::WereWolfRoleConfig;
use werewolf::round::{Action, Event, Round, RoundSM, Step};

const MODERATOR: u64 = 1;
const PLAYER_A: u64 = 10;
const PLAYER_B: u64 = 11;

fn add(user: u64, r: Reactions) -> Event {
    Event::AddReaction { user, emoji: r.to_str().to_string() }
}

fn remove(user: u64, r: Reactions) -> Event {
    Event::RemoveReaction { user, emoji: r.to_str().to_string() }
}

fn configs() -> Vec<WereWolfRoleConfig> {
    vec![
        WereWolfRoleConfig::new("Role1".to_string(), "r1".to_string(), true, false, Vec::new()),
        WereWolfRoleConfig::new("Role2".to_string(), "r2".to_string(), true, false, Vec::new()),
        WereWolfRoleConfig::new("Seer".to_string(), "s".to_string(), false, false, Vec::new()),
    ]
}

fn apply_update(round: &mut Round, ev: &Event) {
    match round.step(ev) {
        Step::Update(sm, _) | Step::Advance(sm, _) => round.apply(sm),
        other => panic!("Expected a change but got {:?}", other),
    }
}

fn registered_round() -> Round {
    let mut round = Round::new(vec![MODERATOR], configs());
    apply_update(&mut round, &add(PLAYER_A, Reactions::Entry));
    apply_update(&mut round, &add(PLAYER_B, Reactions::Entry));
    round
}

#[test]
fn registration_confirm_moves_to_role_selection() {
    let mut round = registered_round();
    match round.step(&add(MODERATOR, Reactions::Confirm)) {
        Step::Advance(sm, Action::ShowRoleSelection { page: 0 }) => round.apply(sm),
        other => panic!("Expected to advance but got {:?}", other),
    }
    match round.state() {
        RoundSM::RegisterRoles(st) => {
            assert_eq!(vec![PLAYER_A, PLAYER_B], st.participants);
            assert!(st.roles.is_empty());
            assert_eq!(0, st.role_page);
        }
        other => panic!("Expected RegisterRoles but got {:?}", other),
    }
}

#[test]
fn registration_confirm_needs_moderator_and_players() {
    let round = Round::new(vec![MODERATOR], configs());
    assert!(matches!(round.step(&add(MODERATOR, Reactions::Confirm)), Step::Stay));
    let round = registered_round();
    assert!(matches!(round.step(&add(PLAYER_A, Reactions::Confirm)), Step::Stay));
}

#[test]
fn registration_remove_takes_player_out() {
    let mut round = registered_round();
    apply_update(&mut round, &remove(PLAYER_A, Reactions::Entry));
    match round.state() {
        RoundSM::RegisterUsers(st) => assert_eq!(vec![PLAYER_B], st.participants),
        other => panic!("Expected RegisterUsers but got {:?}", other),
    }
    assert!(matches!(round.step(&remove(PLAYER_A, Reactions::Entry)), Step::Stay));
}

fn selecting_round() -> Round {
    let mut round = registered_round();
    apply_update(&mut round, &add(MODERATOR, Reactions::Confirm));
    round
}

#[test]
fn non_moderator_confirm_is_ignored() {
    let round = selecting_round();
    let step = round.step(&add(PLAYER_A, Reactions::Confirm));
    assert!(matches!(step, Step::Stay));
    match round.state() {
        RoundSM::RegisterRoles(st) => {
            assert_eq!(vec![PLAYER_A, PLAYER_B], st.participants);
            assert!(st.roles.is_empty());
            assert_eq!(0, st.role_page);
        }
        other => panic!("Expected RegisterRoles but got {:?}", other),
    }
}

#[test]
fn role_selection_toggles_roles() {
    let mut round = selecting_round();
    apply_update(&mut round, &add(MODERATOR, Reactions::Custom("r1".to_string())));
    // Selecting a role twice keeps one copy.
    assert!(matches!(round.step(&add(MODERATOR, Reactions::Custom("r1".to_string()))), Step::Stay));
    // An unknown emoji is ignored.
    assert!(matches!(round.step(&add(MODERATOR, Reactions::Custom("zz".to_string()))), Step::Stay));
    apply_update(&mut round, &add(MODERATOR, Reactions::Custom("s".to_string())));
    apply_update(&mut round, &remove(MODERATOR, Reactions::Custom("r1".to_string())));
    match round.state() {
        RoundSM::RegisterRoles(st) => {
            let names: Vec<&str> = st.roles.iter().map(|r| r.name()).collect();
            assert_eq!(vec!["Seer"], names);
        }
        other => panic!("Expected RegisterRoles but got {:?}", other),
    }
}

#[test]
fn role_selection_pages_stop_at_the_ends() {
    let round = selecting_round();
    assert!(matches!(round.step(&add(MODERATOR, Reactions::PreviousPage)), Step::Stay));
    // Three roles fit on one page.
    assert!(matches!(round.step(&add(MODERATOR, Reactions::NextPage)), Step::Stay));

    let many: Vec<WereWolfRoleConfig> = (0..20)
        .map(|i| WereWolfRoleConfig::new(format!("R{}", i), format!("e{}", i), false, false, Vec::new()))
        .collect();
    let mut round = Round::new(vec![MODERATOR], many);
    apply_update(&mut round, &add(PLAYER_A, Reactions::Entry));
    apply_update(&mut round, &add(MODERATOR, Reactions::Confirm));
    match round.step(&add(MODERATOR, Reactions::NextPage)) {
        Step::Update(sm, Action::ShowRoleSelection { page: 1 }) => round.apply(sm),
        other => panic!("Expected page 1 but got {:?}", other),
    }
    assert!(matches!(round.step(&add(MODERATOR, Reactions::NextPage)), Step::Stay));
    assert!(matches!(
        round.step(&add(MODERATOR, Reactions::PreviousPage)),
        Step::Update(_, Action::ShowRoleSelection { page: 0 })
    ));
}

fn reply(role: &str, content: &str) -> Event {
    Event::Reply { author: MODERATOR, role: role.to_string(), content: content.to_string() }
}

#[test]
fn role_counts_barrier() {
    let mut round = selecting_round();
    apply_update(&mut round, &add(MODERATOR, Reactions::Custom("r1".to_string())));
    apply_update(&mut round, &add(MODERATOR, Reactions::Custom("r2".to_string())));
    match round.step(&add(MODERATOR, Reactions::Confirm)) {
        Step::Advance(sm, Action::AskRoleCounts { roles }) => {
            let names: Vec<&str> = roles.iter().map(|r| r.name()).collect();
            assert_eq!(vec!["Role1", "Role2"], names);
            round.apply(sm);
        }
        other => panic!("Expected to ask for counts but got {:?}", other),
    }
    match round.state() {
        RoundSM::RoleCounts(st) => {
            let pending: Vec<&str> = st.role_messages.iter().map(|r| r.name()).collect();
            assert_eq!(vec!["Role1", "Role2"], pending);
            assert!(st.roles.is_empty());
        }
        other => panic!("Expected RoleCounts but got {:?}", other),
    }
    // A reply that is no positive number, or from a player, changes nothing.
    assert!(matches!(round.step(&reply("Role1", "zero")), Step::Stay));
    assert!(matches!(round.step(&reply("Role1", "0")), Step::Stay));
    assert!(matches!(
        round.step(&Event::Reply { author: PLAYER_A, role: "Role1".to_string(), content: "1".to_string() }),
        Step::Stay
    ));
    assert!(matches!(round.step(&Event::Notify), Step::Stay));

    match round.step(&reply("Role1", "1")) {
        Step::Update(sm, Action::RemoveQuestion { role }) => {
            assert_eq!("Role1", role);
            round.apply(sm);
        }
        other => panic!("Expected the question to be resolved but got {:?}", other),
    }
    match round.state() {
        RoundSM::RoleCounts(st) => {
            let pending: Vec<&str> = st.role_messages.iter().map(|r| r.name()).collect();
            assert_eq!(vec!["Role2"], pending);
            assert_eq!(1, st.roles.len());
            assert_eq!("Role1", st.roles[0].0.name());
            assert_eq!(1, st.roles[0].1);
        }
        other => panic!("Expected RoleCounts but got {:?}", other),
    }

    match round.step(&reply("Role2", "1")) {
        Step::Advance(sm, Action::SetupRound) => round.apply(sm),
        other => panic!("Expected the round to start but got {:?}", other),
    }
    match round.state() {
        RoundSM::Ongoing(st) => {
            assert_eq!(2, st.participants.len());
            let users: Vec<u64> = st.participants.iter().map(|(u, _)| *u).collect();
            assert_eq!(vec![PLAYER_B, PLAYER_A], users);
        }
        other => panic!("Expected Ongoing but got {:?}", other),
    }

    // Only a moderator's stop ends the game.
    assert!(matches!(round.step(&add(PLAYER_A, Reactions::Stop)), Step::Stay));
    match round.step(&add(MODERATOR, Reactions::Stop)) {
        Step::Advance(sm, Action::Teardown) => round.apply(sm),
        other => panic!("Expected the round to end but got {:?}", other),
    }
    assert!(round.is_done());
    assert!(matches!(round.step(&add(MODERATOR, Reactions::Stop)), Step::Stay));
}

#[test]
fn barrier_reports_distribution_error() {
    let mut round = selecting_round();
    apply_update(&mut round, &add(MODERATOR, Reactions::Custom("r1".to_string())));
    apply_update(&mut round, &add(MODERATOR, Reactions::Confirm));
    match round.step(&reply("Role1", "3")) {
        Step::Fail(TransitionError::Distribute(e)) => assert_eq!(
            DistributeError::MismatchedCount { available_roles: 3, player_count: 2 },
            e
        ),
        other => panic!("Expected a distribution error but got {:?}", other),
    }
    // The failed transition leaves the round waiting for the answer.
    match round.state() {
        RoundSM::RoleCounts(st) => assert_eq!(1, st.role_messages.len()),
        other => panic!("Expected RoleCounts but got {:?}", other),
    }
}

#[test]
fn single_player_roles_start_on_notify() {
    let mut round = selecting_round();
    apply_update(&mut round, &add(MODERATOR, Reactions::Custom("s".to_string())));
    match round.step(&add(MODERATOR, Reactions::Confirm)) {
        Step::Advance(sm, Action::AskRoleCounts { roles }) => {
            assert!(roles.is_empty());
            round.apply(sm);
        }
        other => panic!("Expected to ask for counts but got {:?}", other),
    }
    // One Seer for two players: the barrier reports the mismatch.
    match round.step(&Event::Notify) {
        Step::Fail(TransitionError::Distribute(e)) => assert_eq!(
            DistributeError::MismatchedCount { available_roles: 1, player_count: 2 },
            e
        ),
        other => panic!("Expected a distribution error but got {:?}", other),
    }
}

#[test]
fn parse_counts() {
    assert_eq!(Some(3), parse_count("3"));
    assert_eq!(Some(12), parse_count("+12"));
    assert_eq!(None, parse_count("0"));
    assert_eq!(None, parse_count("-1"));
    assert_eq!(None, parse_count("three"));
    assert_eq!(None, parse_count(""));
}

#[test]
fn new_round_is_not_done() {
    let round = Round::new(vec![MODERATOR], Vec::new());
    assert!(!round.is_done());
    match round.state() {
        RoundSM::RegisterUsers(st) => assert!(st.participants.is_empty()),
        other => panic!("Expected RegisterUsers but got {:?}", other),
    }
}

#[test]
fn transition_error_constructors() {
    match TransitionError::new("broken".to_string()) {
        TransitionError::WithReason { reason } => assert_eq!("broken", reason),
        other => panic!("unexpected {:?}", other),
    }
    let shared = TransitionError::Serenity.arced();
    assert!(matches!(*shared, TransitionError::Serenity));
}

#[test]
fn players_may_add_but_not_remove_roles() {
    let mut round = selecting_round();
    apply_update(&mut round, &add(PLAYER_A, Reactions::Custom("s".to_string())));
    assert!(matches!(round.step(&remove(PLAYER_A, Reactions::Custom("s".to_string()))), Step::Stay));
    assert!(matches!(round.step(&add(PLAYER_A, Reactions::NextPage)), Step::Stay));
    match round.state() {
        RoundSM::RegisterRoles(st) => assert_eq!(1, st.roles.len()),
        other => panic!("Expected RegisterRoles but got {:?}", other),
    }
}
