use lickbot2::inventory::{
    best_axe, best_boots, best_by_order, best_chestplate, best_gear, best_helmet, best_hoe,
    best_leggings, best_pickaxe, best_shovel, best_sword, order, position, should_sort_inventory,
    sort_inventory, Gear, ItemKind, Menu, SortStep,
};

/// A player's menu: 46 slots, the player's inventory at 9..=44, the hotbar at 36..=44.
fn player_menu(items: &[(usize, ItemKind)]) -> Menu {
    let mut slots = vec![ItemKind::Other; 46];
    for &(i, k) in items {
        slots[i] = k;
    }
    Menu::new(slots, 9, 44).unwrap()
}

#[test]
fn menu_layout_is_checked() {
    assert!(Menu::new(vec![ItemKind::Other; 46], 9, 44).is_some());
    assert!(Menu::new(vec![ItemKind::Other; 46], 9, 46).is_none());
    assert!(Menu::new(vec![ItemKind::Other; 46], 40, 44).is_none());
    assert!(Menu::new(vec![], 0, 0).is_none());
}

#[test]
fn menu_ranges() {
    let m = player_menu(&[(9, ItemKind::IronAxe), (36, ItemKind::StoneSword), (44, ItemKind::Other)]);
    assert_eq!(m.len(), 46);
    assert_eq!(m.player_slots().len(), 36);
    assert_eq!(m.player_slots()[0], ItemKind::IronAxe);
    assert_eq!(m.player_slots_without_hotbar().len(), 27);
    let hotbar = m.hotbar_slots();
    assert_eq!(hotbar.len(), 9);
    assert_eq!(hotbar[0], ItemKind::StoneSword);
    assert_eq!(m.slot(45), Some(ItemKind::Other));
    assert_eq!(m.slot(46), None);
}

#[test]
fn hotbar_index_conversions() {
    let m = player_menu(&[]);
    assert_eq!(m.hotbar_index_to_slot_index(0), 36);
    assert_eq!(m.hotbar_index_to_slot_index(8), 44);
    assert_eq!(m.slot_index_to_hotbar_index(36), Some(0));
    assert_eq!(m.slot_index_to_hotbar_index(44), Some(8));
    assert_eq!(m.slot_index_to_hotbar_index(35), None);
    assert_eq!(m.slot_index_to_hotbar_index(45), None);
    for i in 0..9 {
        assert_eq!(m.slot_index_to_hotbar_index(m.hotbar_index_to_slot_index(i)), Some(i));
    }
}

#[test]
fn position_in_order() {
    let axes = order(Gear::Axe);
    assert_eq!(position(&axes, ItemKind::WoodenAxe), Some(0));
    assert_eq!(position(&axes, ItemKind::NetheriteAxe), Some(6));
    assert_eq!(position(&axes, ItemKind::IronSword), None);
    assert_eq!(order(Gear::Helmet).len(), 8);
}

#[test]
fn best_picks_highest_tier() {
    let m = player_menu(&[
        (10, ItemKind::StoneAxe),
        (20, ItemKind::DiamondAxe),
        (30, ItemKind::GoldenAxe),
    ]);
    assert_eq!(best_axe(&m), Some((20, ItemKind::DiamondAxe)));
    assert_eq!(best_sword(&m), None);
}

#[test]
fn best_prefers_last_of_equal_tiers() {
    let m = player_menu(&[(12, ItemKind::IronSword), (40, ItemKind::IronSword), (15, ItemKind::StoneSword)]);
    assert_eq!(best_sword(&m), Some((40, ItemKind::IronSword)));
    let slots = vec![ItemKind::CopperHoe, ItemKind::Other, ItemKind::CopperHoe];
    assert_eq!(best_by_order(&slots, &order(Gear::Hoe)), Some((2, ItemKind::CopperHoe)));
}

#[test]
fn best_of_each_gear() {
    let m = player_menu(&[
        (9, ItemKind::NetheritePickaxe),
        (10, ItemKind::WoodenShovel),
        (11, ItemKind::DiamondHoe),
        (12, ItemKind::TurtleHelmet),
        (13, ItemKind::IronHelmet),
        (14, ItemKind::GoldenChestplate),
        (15, ItemKind::CopperChestplate),
        (16, ItemKind::ChainmailLeggings),
        (17, ItemKind::LeatherBoots),
    ]);
    assert_eq!(best_pickaxe(&m), Some((9, ItemKind::NetheritePickaxe)));
    assert_eq!(best_shovel(&m), Some((10, ItemKind::WoodenShovel)));
    assert_eq!(best_hoe(&m), Some((11, ItemKind::DiamondHoe)));
    assert_eq!(best_helmet(&m), Some((12, ItemKind::TurtleHelmet)));
    assert_eq!(best_chestplate(&m), Some((14, ItemKind::GoldenChestplate)));
    assert_eq!(best_leggings(&m), Some((16, ItemKind::ChainmailLeggings)));
    assert_eq!(best_boots(&m), Some((17, ItemKind::LeatherBoots)));
    assert_eq!(best_gear(&m, Gear::Axe), None);
}

#[test]
fn sort_plan_of_a_menu() {
    let m = player_menu(&[
        (20, ItemKind::IronAxe),
        (37, ItemKind::DiamondSword),
        (21, ItemKind::IronHelmet),
        (6, ItemKind::DiamondChestplate),
    ]);
    let plan = sort_inventory(&m);
    assert_eq!(
        plan,
        vec![
            SortStep::Swap { source_slot: 20, hotbar_index: 0 },
            SortStep::ShiftClick { slot: 5 },
            SortStep::ShiftClick { slot: 21 },
        ]
    );
    assert!(should_sort_inventory(&m));
}

#[test]
fn sorted_menu_needs_no_clicks() {
    let m = player_menu(&[
        (36, ItemKind::IronAxe),
        (37, ItemKind::DiamondSword),
        (5, ItemKind::IronHelmet),
        (8, ItemKind::LeatherBoots),
    ]);
    assert!(sort_inventory(&m).is_empty());
    assert!(!should_sort_inventory(&m));
    assert!(!should_sort_inventory(&player_menu(&[])));
}

#[test]
fn armor_slot_is_emptied_first() {
    // The head slot is shift-clicked whether or not it holds anything.
    let mut slots = vec![ItemKind::Other; 14];
    slots[1] = ItemKind::GoldenHelmet;
    let m = Menu::new(slots, 0, 13).unwrap();
    let plan = sort_inventory(&m);
    assert_eq!(plan, vec![SortStep::ShiftClick { slot: 5 }, SortStep::ShiftClick { slot: 1 }]);
}

#[test]
fn player_slots_are_rest_then_hotbar() {
    let m = player_menu(&[(9, ItemKind::IronAxe), (35, ItemKind::StoneHoe), (36, ItemKind::IronSword)]);
    let mut joined = m.player_slots_without_hotbar();
    joined.extend(m.hotbar_slots());
    assert_eq!(joined, m.player_slots());
}
