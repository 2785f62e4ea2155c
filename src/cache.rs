//! An in-memory copy of the role configurations of each group.
use std::collections::BTreeMap;
use vstd::prelude::*;

use crate::roles::{configs_view, copy_configs, RoleConfigView, WereWolfRoleConfig};
use crate::search::{first_where, has_name, position_by_name};

verus! {

broadcast use vstd::laws_cmp::group_laws_cmp;

/// The cached role configurations, by group id.
pub struct Cache {
    roles: BTreeMap<u64, Vec<WereWolfRoleConfig>>,
}

impl Cache {
    /// The cached roles of each group.
    pub closed spec fn roles_view(&self) -> Map<u64, Seq<RoleConfigView>> {
        self.roles@.map_values(|v: Vec<WereWolfRoleConfig>| configs_view(v@))
    }

    /// An empty cache.
    pub fn new() -> (r: Self)
        ensures
            r.roles_view() == Map::<u64, Seq<RoleConfigView>>::empty(),
    {
        let r = Cache { roles: BTreeMap::new() };
        assert(r.roles_view() =~= Map::<u64, Seq<RoleConfigView>>::empty());
        r
    }

    /// Replaces the cached roles of the group.
    pub fn populate(&mut self, guild_id: u64, roles: Vec<WereWolfRoleConfig>)
        ensures
            final(self).roles_view() == old(self).roles_view().insert(guild_id, configs_view(roles@)),
    {
        let ghost rv = configs_view(roles@);
        self.roles.insert(guild_id, roles);
        assert(self.roles_view() =~= old(self).roles_view().insert(guild_id, rv));
    }

    /// A copy of the cached roles of the group, if any are cached.
    pub fn get_roles(&self, guild_id: u64) -> (r: Option<Vec<WereWolfRoleConfig>>)
        ensures
            match r {
                Some(v) => self.roles_view().contains_key(guild_id) && configs_view(v@) == self.roles_view()[guild_id],
                None => !self.roles_view().contains_key(guild_id),
            },
    {
        match self.roles.get(&guild_id) {
            Some(v) => Some(copy_configs(v)),
            None => None,
        }
    }

    /// Adds a role to the cached roles of the group, starting a list if there is none.
    pub fn set_role(&mut self, guild_id: u64, role: WereWolfRoleConfig)
        ensures
            final(self).roles_view() == old(self).roles_view().insert(
                guild_id,
                if old(self).roles_view().contains_key(guild_id) {
                    old(self).roles_view()[guild_id].push(role@)
                } else {
                    seq![role@]
                },
            ),
    {
        let ghost item = role@;
        let mut list = match self.roles.remove(&guild_id) {
            Some(v) => v,
            None => {
                let v: Vec<WereWolfRoleConfig> = Vec::new();
                assert(configs_view(v@) =~= Seq::<RoleConfigView>::empty());
                v
            },
        };
        let ghost before = configs_view(list@);
        list.push(role);
        assert(configs_view(list@) =~= before.push(item));
        let ghost lv = configs_view(list@);
        self.roles.insert(guild_id, list);
        proof {
            if old(self).roles_view().contains_key(guild_id) {
                assert(before == old(self).roles_view()[guild_id]);
            } else {
                assert(before.push(item) =~= seq![item]);
            }
            assert(self.roles_view() =~= old(self).roles_view().insert(guild_id, lv));
        }
    }

    /// Removes the first cached role of the group with the given name, if there is one.
    pub fn remove_role(&mut self, guild_id: u64, role_name: &str)
        ensures
            old(self).roles_view().contains_key(guild_id) && first_where(
                old(self).roles_view()[guild_id],
                has_name(role_name@),
            ) >= 0 ==> final(self).roles_view() == old(self).roles_view().insert(
                guild_id,
                old(self).roles_view()[guild_id].remove(
                    first_where(old(self).roles_view()[guild_id], has_name(role_name@)),
                ),
            ),
            !(old(self).roles_view().contains_key(guild_id) && first_where(
                old(self).roles_view()[guild_id],
                has_name(role_name@),
            ) >= 0) ==> final(self).roles_view() == old(self).roles_view(),
    {
        let mut list = match self.roles.remove(&guild_id) {
            Some(v) => v,
            None => return,
        };
        let ghost before = configs_view(list@);
        match position_by_name(&list, role_name) {
            Some(i) => {
                list.remove(i);
                assert(configs_view(list@) =~= before.remove(i as int));
            },
            None => {},
        }
        let ghost lv = configs_view(list@);
        self.roles.insert(guild_id, list);
        proof {
            assert(self.roles_view() =~= old(self).roles_view().insert(guild_id, lv));
            if first_where(before, has_name(role_name@)) < 0 {
                assert(old(self).roles_view().insert(guild_id, lv) =~= old(self).roles_view());
            }
        }
    }
}

} // verus!
