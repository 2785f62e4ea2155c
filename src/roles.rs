//! Role configurations and the role instances handed out in a running round.
use vstd::prelude::*;

use crate::random::random_below;

verus! {

/// What a role configuration holds, as plain values.
pub struct RoleConfigView {
    pub name: Seq<char>,
    pub emoji: Seq<char>,
    pub multi_player: bool,
    pub masks_role: bool,
    pub other_role_channels: Seq<Seq<char>>,
}

/// What a role instance holds, as plain values; a masking role holds the role it masks.
pub struct RoleInstanceView {
    pub name: Seq<char>,
    pub masked_role: Option<Box<RoleInstanceView>>,
    pub extra_channels: Seq<Seq<char>>,
}

/// The characters of each string of a list.
pub open spec fn strings_view(v: Seq<String>) -> Seq<Seq<char>> {
    v.map_values(|s: String| s@)
}

/// A copy of a list of strings.
pub fn clone_strings(v: &Vec<String>) -> (r: Vec<String>)
    ensures
        r@ == v@,
{
    let mut r: Vec<String> = Vec::new();
    let mut i: usize = 0;
    while i < v.len()
        invariant
            i <= v.len(),
            r@ == v@.subrange(0, i as int),
        decreases v.len() - i,
    {
        r.push(v[i].clone());
        i = i + 1;
    }
    assert(r@ =~= v@);
    r
}

/// The configuration of a custom werewolf role.
#[derive(Debug, PartialEq, Eq)]
pub struct WereWolfRoleConfig {
    name: String,
    emoji: String,
    multi_player: bool,
    masks_role: bool,
    other_role_channels: Vec<String>,
}

impl View for WereWolfRoleConfig {
    type V = RoleConfigView;

    open spec fn view(&self) -> RoleConfigView {
        RoleConfigView {
            name: self.name_spec()@,
            emoji: self.emoji_spec()@,
            multi_player: self.multi_player_spec(),
            masks_role: self.masks_role_spec(),
            other_role_channels: strings_view(self.channels_spec()@),
        }
    }
}

/// The instance a configuration resolves to when it masks no role.
pub open spec fn leaf_of(c: RoleConfigView) -> RoleInstanceView {
    RoleInstanceView { name: c.name, masked_role: None, extra_channels: c.other_role_channels }
}

/// `inst` is what `c` resolves to when the masked roles are drawn from `pool` at the
/// positions `picks`, one after the other, and `rest` is what is left of the pool: a
/// masking role takes one role out of the pool and resolves it in turn.
pub open spec fn resolves_by(
    c: RoleConfigView,
    pool: Seq<RoleConfigView>,
    inst: RoleInstanceView,
    rest: Seq<RoleConfigView>,
    picks: Seq<int>,
) -> bool
    decreases picks.len(),
{
    if !c.masks_role {
        inst == leaf_of(c) && rest == pool && picks.len() == 0
    } else {
        &&& picks.len() > 0
        &&& 0 <= picks[0] < pool.len()
        &&& inst.name == c.name
        &&& inst.extra_channels == c.other_role_channels
        &&& match inst.masked_role {
            Some(m) => resolves_by(pool[picks[0]], pool.remove(picks[0]), *m, rest, picks.drop_first()),
            None => false,
        }
    }
}

/// `inst` is what `c` resolves to for some sequence of draws from `pool`, leaving `rest`.
pub open spec fn resolves(
    c: RoleConfigView,
    pool: Seq<RoleConfigView>,
    inst: RoleInstanceView,
    rest: Seq<RoleConfigView>,
) -> bool {
    exists|picks: Seq<int>| #[trigger] resolves_by(c, pool, inst, rest, picks)
}

/// The views of a list of configurations.
pub open spec fn configs_view(v: Seq<WereWolfRoleConfig>) -> Seq<RoleConfigView> {
    v.map_values(|c: WereWolfRoleConfig| c@)
}

impl Clone for WereWolfRoleConfig {
    fn clone(&self) -> (r: Self)
        ensures
            r@ == self@,
    {
        WereWolfRoleConfig {
            name: self.name.clone(),
            emoji: self.emoji.clone(),
            multi_player: self.multi_player,
            masks_role: self.masks_role,
            other_role_channels: clone_strings(&self.other_role_channels),
        }
    }
}

impl WereWolfRoleConfig {
    pub closed spec fn name_spec(&self) -> String {
        self.name
    }

    pub closed spec fn emoji_spec(&self) -> String {
        self.emoji
    }

    pub closed spec fn multi_player_spec(&self) -> bool {
        self.multi_player
    }

    pub closed spec fn masks_role_spec(&self) -> bool {
        self.masks_role
    }

    pub closed spec fn channels_spec(&self) -> Vec<String> {
        self.other_role_channels
    }

    /// Creates a role configuration from its parts.
    pub fn new(
        name: String,
        emoji: String,
        multi_player: bool,
        masks_role: bool,
        other_role_channels: Vec<String>,
    ) -> (r: Self)
        ensures
            r@ == (RoleConfigView {
                name: name@,
                emoji: emoji@,
                multi_player,
                masks_role,
                other_role_channels: strings_view(other_role_channels@),
            }),
    {
        WereWolfRoleConfig { name, emoji, multi_player, masks_role, other_role_channels }
    }

    /// The name of the role.
    pub fn name(&self) -> (r: &str)
        ensures
            r@ == self@.name,
    {
        self.name.as_str()
    }

    /// The emoji that selects the role.
    pub fn emoji(&self) -> (r: &str)
        ensures
            r@ == self@.emoji,
    {
        self.emoji.as_str()
    }

    /// Whether the role may be given to several players in one round.
    pub fn multi_player(&self) -> (r: bool)
        ensures
            r == self@.multi_player,
    {
        self.multi_player
    }

    /// The other role channels the role has access to.
    pub fn extra_channels(&self) -> (r: &Vec<String>)
        ensures
            strings_view(r@) == self@.other_role_channels,
    {
        &self.other_role_channels
    }

    /// Whether the role carries one more role inside it.
    pub fn masks_role(&self) -> (r: bool)
        ensures
            r == self@.masks_role,
    {
        self.masks_role
    }

    /// The instance of this role. A masking role draws the role it masks uniformly at
    /// random from `pool`, takes it out, and resolves it in turn; `None` when the pool
    /// runs out on the way.
    pub fn to_instance(&self, pool: &mut Vec<WereWolfRoleConfig>) -> (r: Option<WereWolfRoleInstance>)
        ensures
            match r {
                Some(inst) => resolves(self@, configs_view(old(pool)@), inst@, configs_view(final(pool)@)),
                None => self@.masks_role,
            },
            !self@.masks_role ==> r is Some,
            self@.masks_role && old(pool)@.len() > 0 && (forall|i: int|
                0 <= i < old(pool)@.len() ==> !(#[trigger] old(pool)@[i])@.masks_role) ==> r is Some,
        decreases old(pool)@.len(),
    {
        if !self.masks_role {
            let inst = WereWolfRoleInstance::new(self.name.clone(), None, clone_strings(&self.other_role_channels));
            assert(resolves_by(self@, configs_view(pool@), inst@, configs_view(pool@), Seq::empty()));
            return Some(inst);
        }
        if pool.len() == 0 {
            return None;
        }
        let ghost before = configs_view(pool@);
        let idx = random_below(pool.len());
        let other = pool.remove(idx);
        proof {
            assert(configs_view(pool@) =~= before.remove(idx as int));
            assert(other@ == before[idx as int]);
        }
        let inner = match other.to_instance(pool) {
            Some(i) => i,
            None => return None,
        };
        let ghost iv = inner@;
        let inst = WereWolfRoleInstance::new(
            self.name.clone(),
            Some(Box::new(inner)),
            clone_strings(&self.other_role_channels),
        );
        proof {
            assert(inst@.masked_role == Some(Box::new(iv)));
            let rest = configs_view(pool@);
            let i = idx as int;
            let picks = choose|picks: Seq<int>| resolves_by(before[i], before.remove(i), iv, rest, picks);
            let all = seq![i] + picks;
            assert(all.drop_first() =~= picks);
            assert(resolves_by(self@, before, inst@, rest, all));
        }
        Some(inst)
    }

    /// All channel names the role needs: its own name, then its extra channels.
    pub fn channels(&self) -> (r: Vec<String>)
        ensures
            strings_view(r@) == seq![self@.name] + self@.other_role_channels,
    {
        let mut r: Vec<String> = Vec::new();
        r.push(self.name.clone());
        let extra = clone_strings(&self.other_role_channels);
        let mut i: usize = 0;
        while i < extra.len()
            invariant
                i <= extra.len(),
                extra@ == self.other_role_channels@,
                strings_view(r@) == seq![self@.name] + strings_view(extra@.subrange(0, i as int)),
            decreases extra.len() - i,
        {
            let ghost prev = r@;
            r.push(extra[i].clone());
            proof {
                assert(extra@.subrange(0, i + 1) =~= extra@.subrange(0, i as int).push(extra@[i as int]));
                assert(strings_view(r@) =~= strings_view(prev).push(extra@[i as int]@));
                assert(strings_view(extra@.subrange(0, i + 1)) =~= strings_view(extra@.subrange(0, i as int)).push(extra@[i as int]@));
            }
            i = i + 1;
        }
        assert(extra@.subrange(0, extra.len() as int) =~= extra@);
        r
    }
}

/// A role as handed to one player of a running round.
#[derive(Debug, PartialEq)]
pub struct WereWolfRoleInstance {
    name: String,
    masked_role: Option<Box<WereWolfRoleInstance>>,
    extra_channels: Vec<String>,
}

/// The plain values of a role instance.
pub open spec fn instance_view(i: WereWolfRoleInstance) -> RoleInstanceView
    decreases i,
{
    RoleInstanceView {
        name: i.name_spec()@,
        masked_role: match i.masked_spec() {
            Some(m) => Some(Box::new(instance_view(*m))),
            None => None,
        },
        extra_channels: strings_view(i.extra_spec()@),
    }
}

impl View for WereWolfRoleInstance {
    type V = RoleInstanceView;

    open spec fn view(&self) -> RoleInstanceView {
        instance_view(*self)
    }
}

impl WereWolfRoleInstance {
    pub closed spec fn name_spec(&self) -> String {
        self.name
    }

    pub closed spec fn masked_spec(&self) -> Option<Box<WereWolfRoleInstance>> {
        self.masked_role
    }

    pub closed spec fn extra_spec(&self) -> Vec<String> {
        self.extra_channels
    }

    /// Creates an instance from its parts.
    pub fn new(name: String, masked_role: Option<Box<WereWolfRoleInstance>>, extra_channels: Vec<String>) -> (r: Self)
        ensures
            r.name_spec() == name,
            r.masked_spec() == masked_role,
            r.extra_spec() == extra_channels,
            r@ == (RoleInstanceView {
                name: name@,
                masked_role: match masked_role {
                    Some(m) => Some(Box::new(m@)),
                    None => None,
                },
                extra_channels: strings_view(extra_channels@),
            }),
    {
        WereWolfRoleInstance { name, masked_role, extra_channels }
    }

    /// The channels this instance needs access to: its own name, the masked role's
    /// name if there is one, then its extra channels.
    pub fn channels(&self) -> (r: Vec<String>)
        ensures
            strings_view(r@) == instance_channels(self@),
    {
        let mut r: Vec<String> = Vec::new();
        r.push(self.name.clone());
        if let Some(other) = &self.masked_role {
            r.push(other.name.clone());
            assert(strings_view(r@) =~= seq![self@.name, other@.name]);
        } else {
            assert(strings_view(r@) =~= seq![self@.name]);
        }
        let ghost start = strings_view(r@);
        let mut i: usize = 0;
        while i < self.extra_channels.len()
            invariant
                i <= self.extra_channels.len(),
                strings_view(r@) == start + strings_view(self.extra_channels@.subrange(0, i as int)),
            decreases self.extra_channels.len() - i,
        {
            let ghost prev = r@;
            r.push(self.extra_channels[i].clone());
            proof {
                let e = self.extra_channels@;
                assert(e.subrange(0, i + 1) =~= e.subrange(0, i as int).push(e[i as int]));
                assert(strings_view(r@) =~= strings_view(prev).push(e[i as int]@));
                assert(strings_view(e.subrange(0, i + 1)) =~= strings_view(e.subrange(0, i as int)).push(e[i as int]@));
            }
            i = i + 1;
        }
        assert(self.extra_channels@.subrange(0, self.extra_channels.len() as int) =~= self.extra_channels@);
        proof {
            assert(start =~= seq![self@.name] + match self@.masked_role {
                Some(m) => seq![m.name],
                None => Seq::empty(),
            });
        }
        r
    }

    /// The name of the role.
    pub fn name(&self) -> (r: &str)
        ensures
            r@ == self@.name,
    {
        self.name.as_str()
    }

    /// The role masked by this one, if any.
    pub fn masked_role(&self) -> (r: Option<&WereWolfRoleInstance>)
        ensures
            match r {
                Some(m) => self@.masked_role == Some(Box::new(m@)),
                None => self@.masked_role is None,
            },
    {
        match &self.masked_role {
            Some(m) => Some(&**m),
            None => None,
        }
    }
}

/// The channels of an instance: its name, the masked role's name, its extra channels.
pub open spec fn instance_channels(i: RoleInstanceView) -> Seq<Seq<char>> {
    seq![i.name] + match i.masked_role {
        Some(m) => seq![m.name],
        None => Seq::empty(),
    } + i.extra_channels
}

/// A copy of a list of role configurations.
pub(crate) fn copy_configs(v: &Vec<WereWolfRoleConfig>) -> (r: Vec<WereWolfRoleConfig>)
    ensures
        configs_view(r@) == configs_view(v@),
{
    let mut r: Vec<WereWolfRoleConfig> = Vec::new();
    let mut i: usize = 0;
    while i < v.len()
        invariant
            i <= v@.len(),
            configs_view(r@) == configs_view(v@).subrange(0, i as int),
        decreases v.len() - i,
    {
        let ghost prev = configs_view(r@);
        r.push(v[i].clone());
        assert(configs_view(r@) =~= prev.push(v@[i as int]@));
        assert(configs_view(v@).subrange(0, i + 1) =~= configs_view(v@).subrange(0, i as int).push(v@[i as int]@));
        i = i + 1;
    }
    assert(configs_view(v@).subrange(0, v@.len() as int) =~= configs_view(v@));
    r
}

} // verus!
