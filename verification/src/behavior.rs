use vstd::prelude::*;

use crate::inventory::{Menu, should_sort_inventory, sort_plan};
use crate::weapon::{best_weapon_in_hotbar, is_last_max, last_max_index, lemma_last_max_unique};

verus! {

/// What the bot sees on a tick while it may be following a player.
pub struct FollowView {
    /// Ticks since the bot connected.
    pub ticks_connected: u64,
    /// Whether it is following anyone.
    pub following: bool,
    /// Whether the followed player is alive.
    pub target_alive: bool,
    /// Whether the bot is within two blocks of the followed player.
    pub at_goal: bool,
    /// Whether the followed player moved more than three blocks from where the following began.
    pub target_moved: bool,
    /// Whether the pathfinder is calculating a path.
    pub calculating_path: bool,
    /// Whether the pathfinder is walking a path.
    pub executing_path: bool,
}

/// What following does on a tick.
#[derive(Clone, Copy, PartialEq, Eq, Structural, Debug)]
pub enum FollowAction {
    /// Nothing.
    Wait,
    /// Look at the followed player, stopping the pathfinder first when it walks a path.
    LookAtTarget { stop_pathfinding: bool },
    /// Set off towards the followed player.
    GotoTarget,
}

/// Following acts every fifth tick only, and only on a living followed player:
/// at the goal it looks at the player; when the player moved away, or the
/// pathfinder is idle, it sets off towards the player.
pub open spec fn follow_action(v: FollowView) -> FollowAction {
    if v.ticks_connected % 5 != 0 || !v.following || !v.target_alive {
        FollowAction::Wait
    } else if v.at_goal {
        FollowAction::LookAtTarget { stop_pathfinding: v.executing_path }
    } else if v.target_moved {
        FollowAction::GotoTarget
    } else if v.calculating_path || v.executing_path {
        FollowAction::Wait
    } else {
        FollowAction::GotoTarget
    }
}

/// The action of following on this tick, as `follow_action` says.
pub fn follow_tick(v: &FollowView) -> (r: FollowAction)
    ensures
        r == follow_action(*v),
{
    if v.ticks_connected % 5 != 0 {
        return FollowAction::Wait;
    }
    if !v.following || !v.target_alive {
        return FollowAction::Wait;
    }
    if v.at_goal {
        return FollowAction::LookAtTarget { stop_pathfinding: v.executing_path };
    }
    if v.target_moved {
        return FollowAction::GotoTarget;
    }
    if v.calculating_path || v.executing_path {
        return FollowAction::Wait;
    }
    FollowAction::GotoTarget
}

/// What the bot sees on a tick while it fights a player.
pub struct PvpView {
    /// Whether the target is alive.
    pub target_alive: bool,
    /// Ticks since the bot connected.
    pub ticks_connected: u64,
    /// Whether the bot is mining.
    pub is_mining: bool,
    /// The selected hotbar place.
    pub selected_hotbar_slot: u8,
    /// Whether the attack is still cooling down.
    pub has_attack_cooldown: bool,
    /// Whether the target (its feet or its eyes) is within 4.5 blocks of the bot's eyes.
    pub within_look_range: bool,
    /// Whether the target (its feet or its eyes) is within 3 blocks of the bot's eyes.
    pub within_attack_range: bool,
}

/// How a fight goes on after a tick.
#[derive(Clone, Copy, PartialEq, Eq, Structural, Debug)]
pub enum PvpStatus {
    /// The fight goes on.
    Continue,
    /// The target is dead: the fight is over.
    Finished,
    /// Sort the inventory first, in a task on top of the fight.
    SortInventory,
}

/// What the fight does on a tick.
#[derive(Clone, Copy, PartialEq, Eq, Structural, Debug)]
pub struct PvpActions {
    pub status: PvpStatus,
    /// The hotbar place to select, if another than the selected one.
    pub select_hotbar_slot: Option<u8>,
    /// Whether to look at the target.
    pub look_at: bool,
    /// Whether to attack the target.
    pub attack: bool,
}

/// Every hundredth tick, when the bot is not mining, it sorts its inventory
/// when that would click anything, and otherwise selects its best weapon; then,
/// when the attack has cooled down, it looks at a target within 4.5 blocks and
/// attacks one within 3. A dead target ends the fight before anything else.
pub open spec fn pvp_actions(v: PvpView, m: Menu, dps_keys: Seq<u64>) -> PvpActions {
    let idle = PvpActions {
        status: PvpStatus::Continue,
        select_hotbar_slot: None,
        look_at: false,
        attack: false,
    };
    if !v.target_alive {
        PvpActions { status: PvpStatus::Finished, ..idle }
    } else {
        let periodic = v.ticks_connected % 100 == 0 && !v.is_mining;
        if periodic && sort_plan(m).len() > 0 {
            PvpActions { status: PvpStatus::SortInventory, ..idle }
        } else {
            let best = last_max_index(dps_keys);
            let select = if periodic && best != v.selected_hotbar_slot {
                Some(best as u8)
            } else {
                None
            };
            if v.has_attack_cooldown {
                PvpActions { select_hotbar_slot: select, ..idle }
            } else {
                PvpActions {
                    status: PvpStatus::Continue,
                    select_hotbar_slot: select,
                    look_at: v.within_look_range,
                    attack: v.within_attack_range,
                }
            }
        }
    }
}

/// The actions of the fight on this tick, as `pvp_actions` says, given the
/// menu and, for each of the nine hotbar places, a key that orders as the
/// damage per second of its item.
pub fn pvp_tick(v: &PvpView, menu: &Menu, hotbar_dps_keys: &Vec<u64>) -> (r: PvpActions)
    requires
        hotbar_dps_keys@.len() == 9,
    ensures
        r == pvp_actions(*v, *menu, hotbar_dps_keys@),
{
    let idle = PvpActions {
        status: PvpStatus::Continue,
        select_hotbar_slot: None,
        look_at: false,
        attack: false,
    };
    if !v.target_alive {
        return PvpActions { status: PvpStatus::Finished, ..idle };
    }
    let periodic = v.ticks_connected % 100 == 0 && !v.is_mining;
    let mut select: Option<u8> = None;
    if periodic {
        if should_sort_inventory(menu) {
            return PvpActions { status: PvpStatus::SortInventory, ..idle };
        }
        let best = best_weapon_in_hotbar(hotbar_dps_keys);
        if best as u8 != v.selected_hotbar_slot {
            select = Some(best as u8);
        }
    }
    if v.has_attack_cooldown {
        return PvpActions { select_hotbar_slot: select, ..idle };
    }
    PvpActions {
        status: PvpStatus::Continue,
        select_hotbar_slot: select,
        look_at: v.within_look_range,
        attack: v.within_attack_range,
    }
}

} // verus!

verus! {

/// On an acting tick (every fifth, following a living player) a bot at the
/// goal looks at the player, stopping a walk in progress, whether or not the
/// player moved; away from the goal it sets off when the player moved, and
/// otherwise only when the pathfinder is idle. On other ticks it waits.
pub proof fn lemma_follow_decisions(v: FollowView)
    ensures
        !(v.ticks_connected % 5 == 0 && v.following && v.target_alive) ==> follow_action(v)
            == FollowAction::Wait,
        v.ticks_connected % 5 == 0 && v.following && v.target_alive && v.at_goal ==> follow_action(v)
            == (FollowAction::LookAtTarget { stop_pathfinding: v.executing_path }),
        v.ticks_connected % 5 == 0 && v.following && v.target_alive && !v.at_goal && v.target_moved
            ==> follow_action(v) == FollowAction::GotoTarget,
        v.ticks_connected % 5 == 0 && v.following && v.target_alive && !v.at_goal && !v.target_moved
            ==> (follow_action(v) == FollowAction::GotoTarget <==> !v.calculating_path
            && !v.executing_path) && (follow_action(v) == FollowAction::Wait <==> (
            v.calculating_path || v.executing_path)),
{
}

/// The weapon a fight selects is the best of all nine hotbar places: the
/// selected place holds a largest key and no later place holds one as large,
/// and a weapon is selected only on a live tick that is a hundredth, while not
/// mining and with nothing to sort. On such a tick a weapon is selected exactly
/// when the selected place is not that best place.
pub proof fn lemma_pvp_selects_best_weapon(v: PvpView, m: Menu, keys: Seq<u64>)
    requires
        keys.len() == 9,
    ensures
        pvp_actions(v, m, keys).select_hotbar_slot matches Some(s) ==> (is_last_max(keys, s as int)
            && s != v.selected_hotbar_slot && v.target_alive && v.ticks_connected % 100 == 0
            && !v.is_mining && sort_plan(m).len() == 0),
        v.target_alive && v.ticks_connected % 100 == 0 && !v.is_mining && sort_plan(m).len() == 0
            ==> (pvp_actions(v, m, keys).select_hotbar_slot is None <==> is_last_max(
            keys,
            v.selected_hotbar_slot as int,
        )),
{
    lemma_last_max_unique(keys, v.selected_hotbar_slot as int);
    let b = last_max_index(keys);
    assert((b as u8) as int == b);
}

} // verus!
