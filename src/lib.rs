//! A werewolf game played through a group chat, as verified logic.
//!
//! - `statemachines`: transition primitives that latch on their first terminal outcome
//!   (`Next`, `WithState`, `WithLazyState`) and compose one after the other (`Chained`).
//! - `round`: the phases of one round and the decision taken on each chat event.
//! - `distribute`: the random distribution of roles, masking roles included.
//! - `sms` and `notifier`: the registry of running machines with one reservation per
//!   group, and the queue of completion notices.
//! - `roles`, `reactions`, `cfg_reactions`, `cache`, `texts`: role configurations and
//!   instances, the bot's reactions, the paged role selection, the cached roles of each
//!   group and the texts of the role commands.

pub mod cache;
pub mod cfg_reactions;
pub mod count;
pub mod distribute;
pub mod errors;
pub mod notifier;
mod random;
pub mod reactions;
pub mod roles;
pub mod round;
pub mod search;
pub mod sms;
pub mod statemachines;
pub mod texts;
