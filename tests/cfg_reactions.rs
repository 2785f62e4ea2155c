use werewolf::cfg_reactions::{get_roles_msg, is_last_page, reactions};
use werewolf::reactions::Reactions;
use werewolf::roles::WereWolfRoleConfig;

fn werwolf() -> WereWolfRoleConfig {
    WereWolfRoleConfig::new("Werwolf".to_string(), "\u{1f43a}".to_string(), true, false, Vec::new())
}

fn werwolf_reaction() -> Reactions {
    Reactions::Custom(werwolf().emoji().to_string())
}

#[test]
fn is_last_page_true() {
    assert!(is_last_page(15, 0));
    assert!(is_last_page(17, 0));
    assert!(is_last_page(18, 1));
    assert!(is_last_page(34, 1));
}

#[test]
fn is_last_page_false() {
    assert!(!is_last_page(18, 0));
    assert!(!is_last_page(35, 1));
}

#[test]
fn empty_roles() {
    let roles: &[WereWolfRoleConfig] = &[];
    let page = 0;

    let result = reactions(roles, page);
    let expected: Vec<Reactions> = vec![Reactions::Confirm];
    assert_eq!(expected, result);
}

#[test]
fn first_page() {
    let roles = vec![werwolf(); 30];
    let page = 0;

    let result = reactions(&roles, page);
    let expected: Vec<Reactions> = {
        let mut tmp = vec![werwolf_reaction(); 17];
        tmp.push(Reactions::NextPage);
        tmp.push(Reactions::Confirm);
        tmp
    };
    assert_eq!(expected, result);
}

#[test]
fn middle_page() {
    let roles = vec![werwolf(); 50];
    let page = 1;

    let result = reactions(&roles, page);
    let expected: Vec<Reactions> = {
        let mut tmp = vec![Reactions::PreviousPage];
        tmp.extend(vec![werwolf_reaction(); 17]);
        tmp.push(Reactions::NextPage);
        tmp.push(Reactions::Confirm);
        tmp
    };
    assert_eq!(expected, result);
}

#[test]
fn last_page() {
    let roles = vec![werwolf(); 17 * 3];
    let page = 2;

    let result = reactions(&roles, page);
    let expected: Vec<Reactions> = {
        let mut tmp = vec![Reactions::PreviousPage];
        tmp.extend(vec![werwolf_reaction(); 17]);
        tmp.push(Reactions::Confirm);
        tmp
    };
    assert_eq!(expected, result);
}

fn numbered_roles(n: usize) -> Vec<WereWolfRoleConfig> {
    (0..n)
        .map(|i| WereWolfRoleConfig::new(format!("Role{}", i), format!("e{}", i), false, false, Vec::new()))
        .collect()
}

#[test]
fn pagination_twenty_roles() {
    let roles = numbered_roles(20);

    let first = reactions(&roles, 0);
    let mut expected: Vec<Reactions> = (0..17).map(|i| Reactions::Custom(format!("e{}", i))).collect();
    expected.push(Reactions::NextPage);
    expected.push(Reactions::Confirm);
    assert_eq!(expected, first);

    let second = reactions(&roles, 1);
    let mut expected = vec![Reactions::PreviousPage];
    expected.extend((17..20).map(|i| Reactions::Custom(format!("e{}", i))));
    expected.push(Reactions::Confirm);
    assert_eq!(expected, second);
}

#[test]
fn page_past_the_end_shows_no_roles() {
    let roles = numbered_roles(3);
    let result = reactions(&roles, 5);
    assert_eq!(vec![Reactions::PreviousPage, Reactions::Confirm], result);
}

#[test]
fn roles_message_lists_each_role() {
    let roles = vec![
        WereWolfRoleConfig::new("Wolf".to_string(), "w".to_string(), true, false, Vec::new()),
        WereWolfRoleConfig::new("Seer".to_string(), "s".to_string(), false, false, Vec::new()),
    ];
    let expected = format!(
        "Select all Roles to use:\nw: Wolf\ns: Seer\nUse {} and {} to navigate between the Pages",
        "\u{1f448}", "\u{1f449}"
    );
    assert_eq!(expected, get_roles_msg(&roles));
}

#[test]
fn reaction_texts() {
    assert_eq!("\u{2705}", Reactions::Entry.to_str());
    assert_eq!("\u{1f197}", Reactions::Confirm.to_str());
    assert_eq!("\u{1f6d1}", Reactions::Stop.to_str());
    assert_eq!("x", Reactions::Custom("x".to_string()).to_str());
    assert!(Reactions::Entry.matches_emoji(&"\u{2705}".to_string()));
    assert!(!Reactions::Entry.matches_emoji(&"\u{1f197}".to_string()));
}
