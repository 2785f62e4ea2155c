//! The registry of running state machines, keyed by the message each one is attached
//! to, with at most one round reserved per group.
use std::collections::BTreeMap;
use vstd::prelude::*;

use crate::statemachines::{AsyncTransition, Shared, TransitionResult};

verus! {

broadcast use vstd::laws_cmp::group_laws_cmp;

/// A state machine attached to one message of one group.
pub struct MessageStateMachine<T> {
    guild_id: u64,
    message_id: u64,
    sm: T,
}

impl<T> MessageStateMachine<T> {
    pub closed spec fn guild_spec(&self) -> u64 {
        self.guild_id
    }

    pub closed spec fn message_spec(&self) -> u64 {
        self.message_id
    }

    /// The machine itself.
    pub closed spec fn machine(&self) -> T {
        self.sm
    }

    /// Attaches `sm` to the given message of the given group.
    pub fn new(guild_id: u64, message_id: u64, sm: T) -> (r: Self)
        ensures
            r.guild_spec() == guild_id,
            r.message_spec() == message_id,
            r.machine() == sm,
    {
        MessageStateMachine { guild_id, message_id, sm }
    }

    /// The group the machine belongs to.
    pub fn guild_id(&self) -> (r: u64)
        ensures
            r == self.guild_spec(),
    {
        self.guild_id
    }

    /// The message the machine is attached to.
    pub fn message_id(&self) -> (r: u64)
        ensures
            r == self.message_spec(),
    {
        self.message_id
    }
}

/// The reservations after a group asks to reserve a round, and whether it got one: a
/// group with an entry, pending or running, is refused.
pub open spec fn reserve_spec(rounds: Map<u64, Option<u64>>, guild: u64) -> (Map<u64, Option<u64>>, bool) {
    if rounds.contains_key(guild) {
        (rounds, false)
    } else {
        (rounds.insert(guild, None), true)
    }
}

/// The reservations after the round of a group is tied to its message: only a
/// reserved group can be marked.
pub open spec fn mark_spec(rounds: Map<u64, Option<u64>>, guild: u64, message: u64) -> (Map<u64, Option<u64>>, bool) {
    if rounds.contains_key(guild) {
        (rounds.insert(guild, Some(message)), true)
    } else {
        (rounds, false)
    }
}

/// The reservations after the round of `message` ends: the group is released only if
/// its reservation points at that message.
pub open spec fn unmark_spec(rounds: Map<u64, Option<u64>>, guild: u64, message: u64) -> Map<u64, Option<u64>> {
    if rounds.contains_key(guild) && rounds[guild] == Some(message) {
        rounds.remove(guild)
    } else {
        rounds
    }
}

/// The running machines and the per-group reservations.
pub struct StateMachineMap<T> {
    map: BTreeMap<u64, MessageStateMachine<T>>,
    running_rounds: BTreeMap<u64, Option<u64>>,
}

impl<T> StateMachineMap<T> {
    /// The machines, by message id.
    pub closed spec fn machines(&self) -> Map<u64, MessageStateMachine<T>> {
        self.map@
    }

    /// The reservations: group id to the message of its round, once known.
    pub closed spec fn rounds(&self) -> Map<u64, Option<u64>> {
        self.running_rounds@
    }

    /// An empty registry.
    pub fn new() -> (r: Self)
        ensures
            r.machines() == Map::<u64, MessageStateMachine<T>>::empty(),
            r.rounds() == Map::<u64, Option<u64>>::empty(),
    {
        StateMachineMap { map: BTreeMap::new(), running_rounds: BTreeMap::new() }
    }

    /// Reserves the group for a new round before its message exists; fails while the
    /// group has a round pending or running.
    pub fn reserve_running_game(&mut self, guild: u64) -> (r: Result<(), ()>)
        ensures
            final(self).rounds() == reserve_spec(old(self).rounds(), guild).0,
            r is Ok == reserve_spec(old(self).rounds(), guild).1,
            final(self).machines() == old(self).machines(),
    {
        if self.running_rounds.contains_key(&guild) {
            Err(())
        } else {
            self.running_rounds.insert(guild, None);
            Ok(())
        }
    }

    /// Ties the reserved round of the group to its message; fails if the group holds
    /// no reservation.
    pub fn mark_running_game(&mut self, guild: u64, message_id: u64) -> (r: Result<(), ()>)
        ensures
            final(self).rounds() == mark_spec(old(self).rounds(), guild, message_id).0,
            r is Ok == mark_spec(old(self).rounds(), guild, message_id).1,
            final(self).machines() == old(self).machines(),
    {
        if self.running_rounds.contains_key(&guild) {
            self.running_rounds.insert(guild, Some(message_id));
            Ok(())
        } else {
            Err(())
        }
    }

    /// Releases the group if its round is the one of `message_id`.
    pub fn unmark_running_game(&mut self, guild: u64, message_id: u64)
        ensures
            final(self).rounds() == unmark_spec(old(self).rounds(), guild, message_id),
            final(self).machines() == old(self).machines(),
    {
        let points_here = match self.running_rounds.get(&guild) {
            Some(v) => match v {
                Some(m) => *m == message_id,
                None => false,
            },
            None => false,
        };
        if points_here {
            self.running_rounds.remove(&guild);
        }
    }

    /// Registers a machine under its message id.
    pub fn add(&mut self, message_id: u64, sm: MessageStateMachine<T>)
        ensures
            final(self).machines() == old(self).machines().insert(message_id, sm),
            final(self).rounds() == old(self).rounds(),
    {
        self.map.insert(message_id, sm);
    }
}

/// Every registered machine can be driven.
pub open spec fn all_ready<A, C, N, E, T: AsyncTransition<A, C, N, E>>(machines: Map<u64, MessageStateMachine<T>>) -> bool {
    forall|k: u64| #[trigger] machines.contains_key(k) ==> machines[k].machine().ready()
}

impl<T> StateMachineMap<T> {
    /// Hands one event to the machine of `message_id`. A machine that finishes, done or
    /// failed, is removed, and its group released if the reservation points at it.
    /// Returns what the machine returned, or `None` if no machine is registered there.
    pub fn update<C, N, E>(&mut self, message_id: u64, context: C) -> (r: Option<Shared<N, E>>)
        where
            T: AsyncTransition<(), C, N, E>,
        requires
            all_ready(old(self).machines()),
        ensures
            all_ready(final(self).machines()),
            !old(self).machines().contains_key(message_id) ==> r is None && final(self).machines() == old(self).machines()
                && final(self).rounds() == old(self).rounds(),
            old(self).machines().contains_key(message_id) ==> {
                let before = old(self).machines()[message_id];
                &&& r matches Some(res)
                &&& before.machine().latched() is Some ==> res == before.machine().latched()->0
                &&& before.machine().latched() is None ==> exists|next: T|
                    #[trigger] before.machine().advances(context, (), res, next) && (!res.is_terminal_spec()
                        ==> final(self).machines()[message_id].machine() == next)
                &&& res.is_terminal_spec() ==> {
                    &&& final(self).machines() == old(self).machines().remove(message_id)
                    &&& final(self).rounds() == unmark_spec(old(self).rounds(), before.guild_spec(), before.message_spec())
                }
                &&& !res.is_terminal_spec() ==> {
                    &&& final(self).machines().contains_key(message_id)
                    &&& final(self).machines().remove(message_id) == old(self).machines().remove(message_id)
                    &&& final(self).machines()[message_id].guild_spec() == before.guild_spec()
                    &&& final(self).machines()[message_id].message_spec() == before.message_spec()
                    &&& final(self).rounds() == old(self).rounds()
                }
            },
    {
        let mut entry = match self.map.remove(&message_id) {
            Some(e) => e,
            None => return None,
        };
        let ghost before = entry.sm;
        let res = entry.sm.transition(context, &());
        let ghost after = entry.sm;
        if res.is_terminal() {
            let guild = entry.guild_id;
            let msg = entry.message_id;
            self.unmark_running_game(guild, msg);
        } else {
            self.map.insert(message_id, entry);
            assert(self.map@.remove(message_id) =~= old(self).map@.remove(message_id));
        }
        proof {
            if before.latched() is None {
                assert(before.advances(context, (), res, after));
            }
        }
        Some(res)
    }
}

/// A group with a pending or running round cannot reserve another one; once that round
/// is tied to its message and the message's machine has finished, it can again.
pub proof fn reservation_exclusive(rounds: Map<u64, Option<u64>>, guild: u64, message: u64)
    ensures
        reserve_spec(rounds, guild).1 ==> !reserve_spec(reserve_spec(rounds, guild).0, guild).1,
        reserve_spec(rounds, guild).1 ==> {
            let held = mark_spec(reserve_spec(rounds, guild).0, guild, message).0;
            &&& !reserve_spec(held, guild).1
            &&& reserve_spec(unmark_spec(held, guild, message), guild).1
        },
{
    let r1 = reserve_spec(rounds, guild).0;
    if reserve_spec(rounds, guild).1 {
        assert(r1.contains_key(guild));
        let held = mark_spec(r1, guild, message).0;
        assert(held[guild] == Some(message));
        assert(!unmark_spec(held, guild, message).contains_key(guild));
    }
}

} // verus!
