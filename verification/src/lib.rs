//! The logic of a Minecraft bot: reading chat commands, choosing gear and
//! weapons, planning the clicks that sort the inventory, running tasks, and
//! deciding what following and fighting do on each tick.

pub mod behavior;
pub mod commands;
pub mod inventory;
pub mod meta;
pub mod number;
pub mod task;
pub mod text;
pub mod weapon;
