use werewolf::distribute::{distribute_roles, DistributeError};
use werewolf::roles::WereWolfRoleConfig;

fn role(name: &str, masks: bool) -> WereWolfRoleConfig {
    WereWolfRoleConfig::new(name.to_string(), name.to_lowercase(), false, masks, Vec::new())
}

#[test]
fn mismatched_count_names_both_numbers() {
    let roles = vec![(role("RoleA", false), 2), (role("RoleB", false), 2)];
    let result = distribute_roles(vec![1, 2, 3], roles);
    assert_eq!(
        DistributeError::MismatchedCount { available_roles: 4, player_count: 3 },
        result.unwrap_err()
    );
}

#[test]
fn too_many_masking_roles() {
    let roles = vec![(role("Plain", false), 2), (role("Mask", true), 3)];
    let result = distribute_roles(vec![1, 2], roles);
    assert_eq!(
        DistributeError::TooManyMaskedRoles { masking_roles: 3, normal_roles: 2 },
        result.unwrap_err()
    );
}

#[test]
fn every_participant_gets_one_role() {
    let roles = vec![(role("Wolf", false), 2), (role("Seer", false), 1), (role("Mask", true), 1)];
    let participants = vec![10, 20, 30];
    let assigned = distribute_roles(participants.clone(), roles).unwrap();

    assert_eq!(3, assigned.len());
    let users: Vec<u64> = assigned.iter().map(|(u, _)| *u).collect();
    assert_eq!(vec![30, 20, 10], users);

    // The masking role goes first and holds one plain role.
    let (_, first) = &assigned[0];
    assert_eq!("Mask", first.name());
    let inner = first.masked_role().expect("a masking role holds another role");
    assert!(inner.name() == "Wolf" || inner.name() == "Seer");
    assert!(inner.masked_role().is_none());

    // The plain roles used, inside and outside the mask, are exactly the configured ones.
    let mut plain: Vec<String> = assigned[1..].iter().map(|(_, r)| r.name().to_string()).collect();
    for (_, r) in assigned[1..].iter() {
        assert!(r.masked_role().is_none());
    }
    plain.push(inner.name().to_string());
    plain.sort();
    assert_eq!(vec!["Seer".to_string(), "Wolf".to_string(), "Wolf".to_string()], plain);
}

#[test]
fn empty_round_distributes_nothing() {
    let assigned = distribute_roles(Vec::new(), Vec::new()).unwrap();
    assert!(assigned.is_empty());
}

#[test]
fn masking_roles_do_not_count_as_players() {
    let roles = vec![(role("Mask", true), 1)];
    let result = distribute_roles(vec![1], roles);
    assert_eq!(
        DistributeError::MismatchedCount { available_roles: 0, player_count: 1 },
        result.unwrap_err()
    );
}
