use lickbot2::behavior::{follow_tick, pvp_tick, FollowAction, FollowView, PvpActions, PvpStatus, PvpView};
use lickbot2::commands::{
    attacking_player_reply, goto_block_reply, pathfinder_state_reply, goto_player_reply, goto_sender_reply, goto_xz_reply,
    goto_y_reply, player_not_found_reply, unknown_command_reply, GOTO_USAGE_REPLY,
};
use lickbot2::inventory::{ItemKind, Menu};
use lickbot2::meta::{get_rust_log, is_suppressed_chat, short_version, single_line_version, version_clap, BuildInfo};

fn follow(ticks: u64) -> FollowView {
    FollowView {
        ticks_connected: ticks,
        following: true,
        target_alive: true,
        at_goal: false,
        target_moved: false,
        calculating_path: false,
        executing_path: false,
    }
}

#[test]
fn follow_decisions() {
    assert_eq!(follow_tick(&follow(3)), FollowAction::Wait);
    assert_eq!(follow_tick(&follow(10)), FollowAction::GotoTarget);
    assert_eq!(follow_tick(&FollowView { following: false, ..follow(10) }), FollowAction::Wait);
    assert_eq!(follow_tick(&FollowView { target_alive: false, ..follow(10) }), FollowAction::Wait);
    assert_eq!(
        follow_tick(&FollowView { at_goal: true, executing_path: true, ..follow(10) }),
        FollowAction::LookAtTarget { stop_pathfinding: true }
    );
    assert_eq!(
        follow_tick(&FollowView { at_goal: true, ..follow(10) }),
        FollowAction::LookAtTarget { stop_pathfinding: false }
    );
    assert_eq!(
        follow_tick(&FollowView { target_moved: true, executing_path: true, ..follow(10) }),
        FollowAction::GotoTarget
    );
    assert_eq!(follow_tick(&FollowView { calculating_path: true, ..follow(10) }), FollowAction::Wait);
    assert_eq!(follow_tick(&FollowView { executing_path: true, ..follow(10) }), FollowAction::Wait);
}

fn pvp(ticks: u64) -> PvpView {
    PvpView {
        target_alive: true,
        ticks_connected: ticks,
        is_mining: false,
        selected_hotbar_slot: 0,
        has_attack_cooldown: false,
        within_look_range: true,
        within_attack_range: false,
    }
}

fn sorted_menu() -> Menu {
    Menu::new(vec![ItemKind::Other; 46], 9, 44).unwrap()
}

#[test]
fn pvp_decisions() {
    let keys = vec![1, 1, 9, 1, 1, 1, 1, 1, 1];
    let m = sorted_menu();
    let dead = pvp_tick(&PvpView { target_alive: false, ..pvp(100) }, &m, &keys);
    assert_eq!(dead.status, PvpStatus::Finished);
    assert!(!dead.attack && !dead.look_at && dead.select_hotbar_slot.is_none());

    let periodic = pvp_tick(&pvp(200), &m, &keys);
    assert_eq!(
        periodic,
        PvpActions { status: PvpStatus::Continue, select_hotbar_slot: Some(2), look_at: true, attack: false }
    );

    let other_tick = pvp_tick(&PvpView { within_attack_range: true, ..pvp(201) }, &m, &keys);
    assert_eq!(
        other_tick,
        PvpActions { status: PvpStatus::Continue, select_hotbar_slot: None, look_at: true, attack: true }
    );

    let mining = pvp_tick(&PvpView { is_mining: true, ..pvp(300) }, &m, &keys);
    assert_eq!(mining.select_hotbar_slot, None);

    let cooling = pvp_tick(&PvpView { has_attack_cooldown: true, within_attack_range: true, ..pvp(100) }, &m, &keys);
    assert_eq!(
        cooling,
        PvpActions { status: PvpStatus::Continue, select_hotbar_slot: Some(2), look_at: false, attack: false }
    );

    let mut slots = vec![ItemKind::Other; 46];
    slots[20] = ItemKind::IronAxe;
    let unsorted = Menu::new(slots, 9, 44).unwrap();
    assert_eq!(pvp_tick(&pvp(100), &unsorted, &keys).status, PvpStatus::SortInventory);
    assert_eq!(pvp_tick(&pvp(101), &unsorted, &keys).status, PvpStatus::Continue);
}

#[test]
fn rust_log_levels() {
    assert_eq!(get_rust_log(-128), "error,lickbot2=error");
    assert_eq!(get_rust_log(-2), "error,lickbot2=error");
    assert_eq!(get_rust_log(-1), "warn,lickbot2=warn");
    assert_eq!(get_rust_log(0), "warn,lickbot2=info");
    assert_eq!(get_rust_log(1), "warn,lickbot2=debug");
    assert_eq!(get_rust_log(2), "info,lickbot2=trace");
    assert_eq!(get_rust_log(3), "debug,lickbot2=trace");
    assert_eq!(get_rust_log(4), "trace,lickbot2=trace");
    assert_eq!(get_rust_log(127), "trace,lickbot2=trace");
}

#[test]
fn suppressed_chat() {
    assert!(is_suppressed_chat("The particle was not visible for anybody"));
    assert!(is_suppressed_chat("[Server: Displaying particle minecraft:dust ...]"));
    assert!(!is_suppressed_chat("hello"));
}

#[test]
fn version_texts() {
    let info = BuildInfo {
        name: "lickbot2",
        version: "0.1.0",
        commit: "abc1234",
        clean: false,
        branch: "main",
        time: "2024-01-01 00:00:00",
        rust: "rustc 1.95.0",
    };
    assert_eq!(short_version(&info), "lickbot2 v0.1.0");
    assert_eq!(
        single_line_version(&info),
        "lickbot2 v0.1.0 (abc1234+ on main @ 2024-01-01 00:00:00 with rustc 1.95.0)"
    );
    assert_eq!(
        version_clap(&BuildInfo { clean: true, ..info }),
        "v0.1.0\n\nabc1234 on main,\ncompiled @ 2024-01-01 00:00:00\nwith rustc 1.95.0"
    );
}

#[test]
fn replies() {
    assert_eq!(unknown_command_reply("pvp"), "Unknown command: pvp");
    assert_eq!(player_not_found_reply("Steve"), "Player Steve not found");
    assert_eq!(attacking_player_reply("Alex"), "Attacking Alex");
    assert_eq!(goto_sender_reply(1, -2, 3), "Going to your position: x=1 y=-2 y=3");
    assert_eq!(goto_player_reply("Steve", 10, 64, -300), "Going to Steve's position: x=10 y=64 z=-300");
    assert_eq!(goto_y_reply(0), "Going to y=0");
    assert_eq!(goto_xz_reply(i32::MIN, i32::MAX), "Going to x=-2147483648 z=2147483647");
    assert_eq!(goto_block_reply(1, 2, 3), "Going to x=1 y=2 z=3");
    assert_eq!(GOTO_USAGE_REPLY, "expected: !goto <player> | !goto <x> <z> | !goto <x> <y> <z>");
}

#[test]
fn decimal_agrees_with_display() {
    for v in [0, 7, 10, 99, 100, -1, -10, 123456789, i32::MIN, i32::MAX] {
        assert_eq!(goto_y_reply(v), format!("Going to y={v}"));
    }
}

#[test]
fn pathfinder_state_text() {
    assert_eq!(
        pathfinder_state_reply(true, 12, Some(3)),
        "is_path_partial: true, path.len: 12, queued_path.len: 3"
    );
    assert_eq!(
        pathfinder_state_reply(false, 0, None),
        "is_path_partial: false, path.len: 0, queued_path.len: n/a"
    );
}
