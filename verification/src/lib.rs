//! Control-surface logic of the game runtime: save bookkeeping, squad and
//! player action vocabularies, net-admin views, trench catalog, squad
//! bounding, wire vocabularies, run-configuration assembly, and AI behavior
//! transition detection.

pub mod save;
pub mod actions;
mod text;
pub mod trench;
pub mod vocab;
pub mod ai;
pub mod origin;
pub mod net_admin;
pub mod squad;
pub mod order;
pub mod worktree;
pub mod runtime;
pub mod behavior;
