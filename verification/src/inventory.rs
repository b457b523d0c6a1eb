use vstd::prelude::*;

verus! {

/// The kinds of item that the inventory logic tells apart: the tiers of each
/// tool and each piece of armour. Every other item, and an empty slot, is `Other`.
#[derive(Clone, Copy, PartialEq, Eq, Structural, Debug)]
pub enum ItemKind {
    WoodenAxe,
    GoldenAxe,
    StoneAxe,
    CopperAxe,
    IronAxe,
    DiamondAxe,
    NetheriteAxe,
    WoodenSword,
    GoldenSword,
    StoneSword,
    CopperSword,
    IronSword,
    DiamondSword,
    NetheriteSword,
    WoodenPickaxe,
    GoldenPickaxe,
    StonePickaxe,
    CopperPickaxe,
    IronPickaxe,
    DiamondPickaxe,
    NetheritePickaxe,
    WoodenShovel,
    GoldenShovel,
    StoneShovel,
    CopperShovel,
    IronShovel,
    DiamondShovel,
    NetheriteShovel,
    WoodenHoe,
    GoldenHoe,
    StoneHoe,
    CopperHoe,
    IronHoe,
    DiamondHoe,
    NetheriteHoe,
    LeatherHelmet,
    GoldenHelmet,
    CopperHelmet,
    ChainmailHelmet,
    IronHelmet,
    TurtleHelmet,
    DiamondHelmet,
    NetheriteHelmet,
    LeatherChestplate,
    CopperChestplate,
    GoldenChestplate,
    ChainmailChestplate,
    IronChestplate,
    DiamondChestplate,
    NetheriteChestplate,
    LeatherLeggings,
    GoldenLeggings,
    CopperLeggings,
    ChainmailLeggings,
    IronLeggings,
    DiamondLeggings,
    NetheriteLeggings,
    LeatherBoots,
    GoldenBoots,
    CopperBoots,
    ChainmailBoots,
    IronBoots,
    DiamondBoots,
    NetheriteBoots,
    Other,
}

/// The kinds of gear that sorting puts in place.
#[derive(Clone, Copy, PartialEq, Eq, Structural, Debug)]
pub enum Gear {
    Axe,
    Sword,
    Pickaxe,
    Shovel,
    Hoe,
    Helmet,
    Chestplate,
    Leggings,
    Boots,
}

/// The tiers of each gear, from worst to best.
pub open spec fn gear_order(g: Gear) -> Seq<ItemKind> {
    match g {
        Gear::Axe => seq![
            ItemKind::WoodenAxe,
            ItemKind::GoldenAxe,
            ItemKind::StoneAxe,
            ItemKind::CopperAxe,
            ItemKind::IronAxe,
            ItemKind::DiamondAxe,
            ItemKind::NetheriteAxe,
        ],
        Gear::Sword => seq![
            ItemKind::WoodenSword,
            ItemKind::GoldenSword,
            ItemKind::StoneSword,
            ItemKind::CopperSword,
            ItemKind::IronSword,
            ItemKind::DiamondSword,
            ItemKind::NetheriteSword,
        ],
        Gear::Pickaxe => seq![
            ItemKind::WoodenPickaxe,
            ItemKind::GoldenPickaxe,
            ItemKind::StonePickaxe,
            ItemKind::CopperPickaxe,
            ItemKind::IronPickaxe,
            ItemKind::DiamondPickaxe,
            ItemKind::NetheritePickaxe,
        ],
        Gear::Shovel => seq![
            ItemKind::WoodenShovel,
            ItemKind::GoldenShovel,
            ItemKind::StoneShovel,
            ItemKind::CopperShovel,
            ItemKind::IronShovel,
            ItemKind::DiamondShovel,
            ItemKind::NetheriteShovel,
        ],
        Gear::Hoe => seq![
            ItemKind::WoodenHoe,
            ItemKind::GoldenHoe,
            ItemKind::StoneHoe,
            ItemKind::CopperHoe,
            ItemKind::IronHoe,
            ItemKind::DiamondHoe,
            ItemKind::NetheriteHoe,
        ],
        Gear::Helmet => seq![
            ItemKind::LeatherHelmet,
            ItemKind::GoldenHelmet,
            ItemKind::CopperHelmet,
            ItemKind::ChainmailHelmet,
            ItemKind::IronHelmet,
            ItemKind::TurtleHelmet,
            ItemKind::DiamondHelmet,
            ItemKind::NetheriteHelmet,
        ],
        Gear::Chestplate => seq![
            ItemKind::LeatherChestplate,
            ItemKind::CopperChestplate,
            ItemKind::GoldenChestplate,
            ItemKind::ChainmailChestplate,
            ItemKind::IronChestplate,
            ItemKind::DiamondChestplate,
            ItemKind::NetheriteChestplate,
        ],
        Gear::Leggings => seq![
            ItemKind::LeatherLeggings,
            ItemKind::GoldenLeggings,
            ItemKind::CopperLeggings,
            ItemKind::ChainmailLeggings,
            ItemKind::IronLeggings,
            ItemKind::DiamondLeggings,
            ItemKind::NetheriteLeggings,
        ],
        Gear::Boots => seq![
            ItemKind::LeatherBoots,
            ItemKind::GoldenBoots,
            ItemKind::CopperBoots,
            ItemKind::ChainmailBoots,
            ItemKind::IronBoots,
            ItemKind::DiamondBoots,
            ItemKind::NetheriteBoots,
        ],
    }
}

/// The tiers of `g`, from worst to best.
pub fn order(g: Gear) -> (r: Vec<ItemKind>)
    ensures
        r@ == gear_order(g),
{
    let r = match g {
        Gear::Axe => vec![
            ItemKind::WoodenAxe,
            ItemKind::GoldenAxe,
            ItemKind::StoneAxe,
            ItemKind::CopperAxe,
            ItemKind::IronAxe,
            ItemKind::DiamondAxe,
            ItemKind::NetheriteAxe,
        ],
        Gear::Sword => vec![
            ItemKind::WoodenSword,
            ItemKind::GoldenSword,
            ItemKind::StoneSword,
            ItemKind::CopperSword,
            ItemKind::IronSword,
            ItemKind::DiamondSword,
            ItemKind::NetheriteSword,
        ],
        Gear::Pickaxe => vec![
            ItemKind::WoodenPickaxe,
            ItemKind::GoldenPickaxe,
            ItemKind::StonePickaxe,
            ItemKind::CopperPickaxe,
            ItemKind::IronPickaxe,
            ItemKind::DiamondPickaxe,
            ItemKind::NetheritePickaxe,
        ],
        Gear::Shovel => vec![
            ItemKind::WoodenShovel,
            ItemKind::GoldenShovel,
            ItemKind::StoneShovel,
            ItemKind::CopperShovel,
            ItemKind::IronShovel,
            ItemKind::DiamondShovel,
            ItemKind::NetheriteShovel,
        ],
        Gear::Hoe => vec![
            ItemKind::WoodenHoe,
            ItemKind::GoldenHoe,
            ItemKind::StoneHoe,
            ItemKind::CopperHoe,
            ItemKind::IronHoe,
            ItemKind::DiamondHoe,
            ItemKind::NetheriteHoe,
        ],
        Gear::Helmet => vec![
            ItemKind::LeatherHelmet,
            ItemKind::GoldenHelmet,
            ItemKind::CopperHelmet,
            ItemKind::ChainmailHelmet,
            ItemKind::IronHelmet,
            ItemKind::TurtleHelmet,
            ItemKind::DiamondHelmet,
            ItemKind::NetheriteHelmet,
        ],
        Gear::Chestplate => vec![
            ItemKind::LeatherChestplate,
            ItemKind::CopperChestplate,
            ItemKind::GoldenChestplate,
            ItemKind::ChainmailChestplate,
            ItemKind::IronChestplate,
            ItemKind::DiamondChestplate,
            ItemKind::NetheriteChestplate,
        ],
        Gear::Leggings => vec![
            ItemKind::LeatherLeggings,
            ItemKind::GoldenLeggings,
            ItemKind::CopperLeggings,
            ItemKind::ChainmailLeggings,
            ItemKind::IronLeggings,
            ItemKind::DiamondLeggings,
            ItemKind::NetheriteLeggings,
        ],
        Gear::Boots => vec![
            ItemKind::LeatherBoots,
            ItemKind::GoldenBoots,
            ItemKind::CopperBoots,
            ItemKind::ChainmailBoots,
            ItemKind::IronBoots,
            ItemKind::DiamondBoots,
            ItemKind::NetheriteBoots,
        ],
    };
    assert(r@ =~= gear_order(g));
    r
}

} // verus!

verus! {

/// The position of the first `k` in `order`, as `Iterator::position` finds it.
pub open spec fn position_in(order: Seq<ItemKind>, k: ItemKind) -> Option<int>
    decreases order.len(),
{
    if order.len() == 0 {
        None
    } else if order[0] == k {
        Some(0)
    } else {
        match position_in(order.drop_first(), k) {
            Some(p) => Some(p + 1),
            None => None,
        }
    }
}

/// `position_in` finds the first occurrence, and finds none only when there is none.
pub proof fn lemma_position_in(order: Seq<ItemKind>, k: ItemKind)
    ensures
        position_in(order, k) matches Some(p) ==> 0 <= p < order.len() && order[p] == k && forall|
            j: int,
        | 0 <= j < p ==> order[j] != k,
        position_in(order, k) is None ==> forall|j: int| 0 <= j < order.len() ==> order[j] != k,
    decreases order.len(),
{
    if order.len() > 0 && order[0] != k {
        let t = order.drop_first();
        lemma_position_in(t, k);
        assert forall|j: int| 1 <= j < order.len() implies order[j] == t[j - 1] by {}
    }
}

/// The rank of `k` in `order` (its position), as used to pick the best slot.
pub fn position(order: &Vec<ItemKind>, k: ItemKind) -> (r: Option<usize>)
    ensures
        match r {
            Some(p) => position_in(order@, k) == Some(p as int),
            None => position_in(order@, k) is None,
        },
{
    proof {
        lemma_position_in(order@, k);
    }
    let mut i: usize = 0;
    while i < order.len()
        invariant
            i <= order@.len(),
            forall|j: int| 0 <= j < i ==> order@[j] != k,
            position_in(order@, k) matches Some(p) ==> 0 <= p < order@.len() && order@[p] == k
                && forall|j: int| 0 <= j < p ==> order@[j] != k,
            position_in(order@, k) is None ==> forall|j: int| 0 <= j < order@.len() ==> order@[j] != k,
        decreases order@.len() - i,
    {
        if order[i] == k {
            return Some(i);
        }
        i = i + 1;
    }
    None
}

/// The slot that `Iterator::max_by_key` picks among the slots whose kind is in
/// `order`, keyed by their rank: the highest rank, and of equal ranks the last slot.
/// `None` when no slot holds a kind of `order`.
pub open spec fn best_slot(slots: Seq<ItemKind>, order: Seq<ItemKind>) -> Option<int>
    decreases slots.len(),
{
    if slots.len() == 0 {
        None
    } else {
        let rest = best_slot(slots.drop_last(), order);
        match position_in(order, slots.last()) {
            None => rest,
            Some(p) => match rest {
                None => Some(slots.len() - 1),
                Some(b) => if p >= position_in(order, slots[b])->0 {
                    Some(slots.len() - 1)
                } else {
                    rest
                },
            },
        }
    }
}

/// The best slot holds a kind of the order; no slot ranks higher, and no later
/// slot ranks as high. There is no best slot only when no slot holds a kind of the order.
pub proof fn lemma_best_slot(slots: Seq<ItemKind>, order: Seq<ItemKind>)
    ensures
        best_slot(slots, order) matches Some(b) ==> {
            &&& 0 <= b < slots.len()
            &&& position_in(order, slots[b]) is Some
            &&& forall|j: int|
                0 <= j < slots.len() && #[trigger] position_in(order, slots[j]) is Some ==> position_in(
                    order,
                    slots[j],
                )->0 <= position_in(order, slots[b])->0
            &&& forall|j: int|
                b < j < slots.len() && #[trigger] position_in(order, slots[j]) is Some ==> position_in(
                    order,
                    slots[j],
                )->0 < position_in(order, slots[b])->0
        },
        best_slot(slots, order) is None ==> forall|j: int|
            0 <= j < slots.len() ==> #[trigger] position_in(order, slots[j]) is None,
    decreases slots.len(),
{
    if slots.len() > 0 {
        let t = slots.drop_last();
        lemma_best_slot(t, order);
        assert forall|j: int| 0 <= j < t.len() implies #[trigger] slots[j] == t[j] by {}
    }
}

/// The best slot of `slots` for `order`, and the kind in it, as `best_slot` says.
pub fn best_by_order(slots: &Vec<ItemKind>, order: &Vec<ItemKind>) -> (r: Option<(usize, ItemKind)>)
    ensures
        match r {
            Some((i, k)) => best_slot(slots@, order@) == Some(i as int) && k == slots@[i as int],
            None => best_slot(slots@, order@) is None,
        },
{
    let mut best: Option<(usize, usize)> = None;
    let mut i: usize = 0;
    assert(slots@.take(0) =~= Seq::<ItemKind>::empty());
    while i < slots.len()
        invariant
            i <= slots@.len(),
            match best {
                Some((b, p)) => best_slot(slots@.take(i as int), order@) == Some(b as int) && b < i
                    && position_in(order@, slots@[b as int]) == Some(p as int),
                None => best_slot(slots@.take(i as int), order@) is None,
            },
        decreases slots@.len() - i,
    {
        let ghost pre = slots@.take(i as int);
        let ghost post = slots@.take(i + 1);
        assert(post.drop_last() =~= pre);
        assert(post.last() == slots@[i as int]);
        assert forall|j: int| 0 <= j < i implies #[trigger] post[j] == slots@[j] by {}
        match position(order, slots[i]) {
            None => {},
            Some(p) => {
                match best {
                    None => {
                        best = Some((i, p));
                    },
                    Some((_, bp)) => {
                        if p >= bp {
                            best = Some((i, p));
                        }
                    },
                }
            },
        }
        i = i + 1;
    }
    assert(slots@.take(slots@.len() as int) =~= slots@);
    match best {
        Some((b, _)) => Some((b, slots[b])),
        None => None,
    }
}

} // verus!

verus! {

/// What the inventory logic reads of an open menu: the kind of item in each
/// slot, and the range of slots (`player_start..=player_end`) that hold the
/// player's own inventory, whose last nine are the hotbar.
pub struct Menu {
    slots: Vec<ItemKind>,
    player_start: usize,
    player_end: usize,
}

/// A menu layout that the slot ranges below are defined on: the player's
/// slots lie inside the menu and hold more than the nine of the hotbar, and
/// every slot has a `usize` index.
pub open spec fn menu_layout_ok(len: nat, player_start: nat, player_end: nat) -> bool {
    player_start + 9 <= player_end < len <= usize::MAX
}

impl Menu {
    #[verifier::type_invariant]
    spec fn layout_ok(self) -> bool {
        menu_layout_ok(self.slots@.len(), self.player_start as nat, self.player_end as nat)
    }

    /// The kinds in the slots, in slot order.
    pub closed spec fn slots_view(self) -> Seq<ItemKind> {
        self.slots@
    }

    /// The first slot of the player's inventory.
    pub closed spec fn player_start_view(self) -> nat {
        self.player_start as nat
    }

    /// The last slot of the player's inventory (the last hotbar slot).
    pub closed spec fn player_end_view(self) -> nat {
        self.player_end as nat
    }

    /// The first slot of the hotbar: the hotbar is the last nine slots of the
    /// player's inventory.
    pub open spec fn hotbar_start_view(self) -> int {
        self.player_end_view() - 8
    }

    /// The layout that every menu has: the player's slots lie inside the menu
    /// and hold more than the nine of the hotbar. Every method of `Menu` ensures it.
    pub open spec fn layout_holds(self) -> bool {
        menu_layout_ok(self.slots_view().len(), self.player_start_view(), self.player_end_view())
    }

    /// The slot of hotbar place `i`.
    pub open spec fn hotbar_slot_spec(self, i: int) -> int {
        self.hotbar_start_view() + i
    }

    /// The hotbar place of slot `s`: `Some` exactly for the slots of the hotbar.
    pub open spec fn hotbar_index_spec(self, s: int) -> Option<int> {
        if self.hotbar_start_view() <= s <= self.player_end_view() {
            Some(s - self.hotbar_start_view())
        } else {
            None
        }
    }

    /// A menu of these slots whose player inventory is `player_start..=player_end`;
    /// `None` when the range does not fit `menu_layout_ok`.
    pub fn new(slots: Vec<ItemKind>, player_start: usize, player_end: usize) -> (r: Option<Menu>)
        ensures
            r is Some <==> menu_layout_ok(slots@.len(), player_start as nat, player_end as nat),
            r matches Some(m) ==> m.slots_view() == slots@ && m.player_start_view() == player_start
                && m.player_end_view() == player_end,
    {
        let len = slots.len();
        if player_start <= usize::MAX - 9 && player_start + 9 <= player_end && player_end < len {
            Some(Menu { slots, player_start, player_end })
        } else {
            None
        }
    }

    /// The number of slots.
    pub fn len(&self) -> (r: usize)
        ensures
            self.layout_holds(),
            r == self.slots_view().len(),
    {
        proof {
            use_type_invariant(self);
        }
        self.slots.len()
    }

    /// The kind in slot `i`, or `None` past the last slot (as `Menu::slot` finds a slot).
    pub fn slot(&self, i: usize) -> (r: Option<ItemKind>)
        ensures
            self.layout_holds(),
            r is Some <==> i < self.slots_view().len(),
            r matches Some(k) ==> k == self.slots_view()[i as int],
    {
        proof {
            use_type_invariant(self);
        }
        if i < self.slots.len() {
            Some(self.slots[i])
        } else {
            None
        }
    }

    /// The kinds in all slots.
    pub fn slots(&self) -> (r: &Vec<ItemKind>)
        ensures
            self.layout_holds(),
            r@ == self.slots_view(),
    {
        proof {
            use_type_invariant(self);
        }
        &self.slots
    }

    /// The kinds in slots `from..to`.
    fn slot_range(&self, from: usize, to: usize) -> (r: Vec<ItemKind>)
        requires
            from <= to <= self.slots_view().len(),
        ensures
            r@ == self.slots_view().subrange(from as int, to as int),
    {
        let mut r: Vec<ItemKind> = Vec::new();
        let mut i = from;
        while i < to
            invariant
                from <= i <= to <= self.slots@.len(),
                r@ == self.slots@.subrange(from as int, i as int),
            decreases to - i,
        {
            r.push(self.slots[i]);
            assert(r@ =~= self.slots@.subrange(from as int, i + 1));
            i = i + 1;
        }
        r
    }

    /// Returns the contents of the player's inventory.
    pub fn player_slots(&self) -> (r: Vec<ItemKind>)
        ensures
            self.layout_holds(),
            r@ == self.slots_view().subrange(self.player_start_view() as int, self.player_end_view() + 1int),
    {
        proof {
            use_type_invariant(self);
        }
        // the number of slots bounds the last slot, so one past it fits in a usize
        let len = self.slots.len();
        assert(self.player_end < len);
        self.slot_range(self.player_start, self.player_end + 1)
    }

    /// Returns the contents of the player's inventory, not including the hotbar.
    pub fn player_slots_without_hotbar(&self) -> (r: Vec<ItemKind>)
        ensures
            self.layout_holds(),
            r@ == self.slots_view().subrange(self.player_start_view() as int, self.hotbar_start_view()),
    {
        proof {
            use_type_invariant(self);
        }
        self.slot_range(self.player_start, self.player_end - 8)
    }

    /// Returns the contents of the player's hotbar.
    pub fn hotbar_slots(&self) -> (r: Vec<ItemKind>)
        ensures
            self.layout_holds(),
            r@ == self.slots_view().subrange(self.hotbar_start_view(), self.player_end_view() + 1int),
            r@.len() == 9,
    {
        proof {
            use_type_invariant(self);
        }
        // the number of slots bounds the last slot, so one past it fits in a usize
        let len = self.slots.len();
        assert(self.player_end < len);
        self.slot_range(self.player_end - 8, self.player_end + 1)
    }

    /// Converts a hotbar-relative index (0-8) into the corresponding absolute slot index.
    pub fn hotbar_index_to_slot_index(&self, i: usize) -> (r: usize)
        requires
            i <= 8,
        ensures
            self.layout_holds(),
            r == self.hotbar_slot_spec(i as int),
            r < self.slots_view().len(),
    {
        proof {
            use_type_invariant(self);
        }
        self.player_end - 8 + i
    }

    /// Converts an absolute slot index into a hotbar-relative index (0-8):
    /// `Some` exactly for the slots of the hotbar.
    pub fn slot_index_to_hotbar_index(&self, i: usize) -> (r: Option<usize>)
        ensures
            self.layout_holds(),
            match r {
                Some(h) => self.hotbar_index_spec(i as int) == Some(h as int),
                None => self.hotbar_index_spec(i as int) is None,
            },
    {
        proof {
            use_type_invariant(self);
        }
        if self.player_end - 8 <= i && i <= self.player_end {
            Some(i - (self.player_end - 8))
        } else {
            None
        }
    }
}

/// The two hotbar conversions undo each other: the slot of a hotbar place maps
/// back to that place, and the place of a hotbar slot maps back to that slot.
pub proof fn lemma_hotbar_index_round_trip(m: Menu, i: int, s: int)
    ensures
        0 <= i <= 8 ==> m.hotbar_index_spec(m.hotbar_slot_spec(i)) == Some(i),
        m.hotbar_index_spec(s) matches Some(h) ==> 0 <= h <= 8 && m.hotbar_slot_spec(h) == s,
{
}

/// The player's slots are those without the hotbar followed by the nine of the hotbar.
pub proof fn lemma_player_slots_split(m: Menu)
    requires
        m.layout_holds(),
    ensures
        m.slots_view().subrange(m.player_start_view() as int, m.player_end_view() + 1int)
            == m.slots_view().subrange(m.player_start_view() as int, m.hotbar_start_view())
            + m.slots_view().subrange(m.hotbar_start_view(), m.player_end_view() + 1int),
        m.slots_view().subrange(m.hotbar_start_view(), m.player_end_view() + 1int).len() == 9,
        m.slots_view().subrange(m.player_start_view() as int, m.hotbar_start_view()).len() > 0,
{
    let v = m.slots_view();
    let a = m.player_start_view() as int;
    let h = m.hotbar_start_view();
    let e = m.player_end_view() + 1int;
    assert(v.subrange(a, e) =~= v.subrange(a, h) + v.subrange(h, e));
}

} // verus!

verus! {

/// The best slot of `menu` for gear `g`, as `best_slot` says, with its kind.
pub fn best_gear(menu: &Menu, g: Gear) -> (r: Option<(usize, ItemKind)>)
    ensures
        match r {
            Some((i, k)) => best_slot(menu.slots_view(), gear_order(g)) == Some(i as int) && k
                == menu.slots_view()[i as int],
            None => best_slot(menu.slots_view(), gear_order(g)) is None,
        },
{
    let o = order(g);
    best_by_order(menu.slots(), &o)
}

/// The slot of the best axe, and its kind.
pub fn best_axe(menu: &Menu) -> (r: Option<(usize, ItemKind)>)
    ensures
        r == best_gear_spec(menu, Gear::Axe),
{
    best_gear(menu, Gear::Axe)
}

/// The slot of the best sword, and its kind.
pub fn best_sword(menu: &Menu) -> (r: Option<(usize, ItemKind)>)
    ensures
        r == best_gear_spec(menu, Gear::Sword),
{
    best_gear(menu, Gear::Sword)
}

/// The slot of the best pickaxe, and its kind.
pub fn best_pickaxe(menu: &Menu) -> (r: Option<(usize, ItemKind)>)
    ensures
        r == best_gear_spec(menu, Gear::Pickaxe),
{
    best_gear(menu, Gear::Pickaxe)
}

/// The slot of the best shovel, and its kind.
pub fn best_shovel(menu: &Menu) -> (r: Option<(usize, ItemKind)>)
    ensures
        r == best_gear_spec(menu, Gear::Shovel),
{
    best_gear(menu, Gear::Shovel)
}

/// The slot of the best hoe, and its kind.
pub fn best_hoe(menu: &Menu) -> (r: Option<(usize, ItemKind)>)
    ensures
        r == best_gear_spec(menu, Gear::Hoe),
{
    best_gear(menu, Gear::Hoe)
}

/// The slot of the best helmet, and its kind.
pub fn best_helmet(menu: &Menu) -> (r: Option<(usize, ItemKind)>)
    ensures
        r == best_gear_spec(menu, Gear::Helmet),
{
    best_gear(menu, Gear::Helmet)
}

/// The slot of the best chestplate, and its kind.
pub fn best_chestplate(menu: &Menu) -> (r: Option<(usize, ItemKind)>)
    ensures
        r == best_gear_spec(menu, Gear::Chestplate),
{
    best_gear(menu, Gear::Chestplate)
}

/// The slot of the best leggings, and their kind.
pub fn best_leggings(menu: &Menu) -> (r: Option<(usize, ItemKind)>)
    ensures
        r == best_gear_spec(menu, Gear::Leggings),
{
    best_gear(menu, Gear::Leggings)
}

/// The slot of the best boots, and their kind.
pub fn best_boots(menu: &Menu) -> (r: Option<(usize, ItemKind)>)
    ensures
        r == best_gear_spec(menu, Gear::Boots),
{
    best_gear(menu, Gear::Boots)
}

/// The best slot of `menu` for gear `g`, with the kind in it.
pub open spec fn best_gear_spec(menu: &Menu, g: Gear) -> Option<(usize, ItemKind)> {
    match best_slot(menu.slots_view(), gear_order(g)) {
        Some(b) => Some((b as usize, menu.slots_view()[b])),
        None => None,
    }
}

/// Hotbar places of the tools.
pub const AXE_HOTBAR_INDEX: usize = 0;
pub const SWORD_HOTBAR_INDEX: usize = 1;
pub const PICKAXE_HOTBAR_INDEX: usize = 2;
pub const SHOVEL_HOTBAR_INDEX: usize = 3;
pub const HOE_HOTBAR_INDEX: usize = 4;

/// Slots of the armour in the player's menu.
pub const HEAD_SLOT_INDEX: usize = 5;
pub const CHEST_SLOT_INDEX: usize = 6;
pub const LEGS_SLOT_INDEX: usize = 7;
pub const FEET_SLOT_INDEX: usize = 8;

/// One click of inventory sorting; each is followed by a wait of one tick.
#[derive(Clone, Copy, PartialEq, Eq, Structural, Debug)]
pub enum SortStep {
    /// Swap the item in `source_slot` with hotbar place `hotbar_index`.
    Swap { source_slot: usize, hotbar_index: usize },
    /// Shift-click `slot`, moving its item to or from the armour slots.
    ShiftClick { slot: usize },
}

/// The step that puts the best tool of `g` at hotbar place `hotbar_index`:
/// none when there is no such tool or it is there already.
pub open spec fn tool_steps(m: Menu, g: Gear, hotbar_index: int) -> Seq<SortStep> {
    match best_slot(m.slots_view(), gear_order(g)) {
        Some(b) => if b != m.hotbar_start_view() + hotbar_index {
            seq![SortStep::Swap { source_slot: b as usize, hotbar_index: hotbar_index as usize }]
        } else {
            seq![]
        },
        None => seq![],
    }
}

/// The steps that put the best armour of `g` in `armor_slot`: none when there
/// is no such armour or it is there already; otherwise a shift-click that
/// empties the armour slot (when the menu has that slot), then one on the best
/// armour's slot.
pub open spec fn armor_steps(m: Menu, g: Gear, armor_slot: int) -> Seq<SortStep> {
    match best_slot(m.slots_view(), gear_order(g)) {
        Some(b) => if b != armor_slot {
            (if armor_slot < m.slots_view().len() {
                seq![SortStep::ShiftClick { slot: armor_slot as usize }]
            } else {
                seq![]
            }) + seq![SortStep::ShiftClick { slot: b as usize }]
        } else {
            seq![]
        },
        None => seq![],
    }
}

/// The clicks that sort `m`, in order: the five tools to their hotbar places,
/// then the four pieces of armour to their slots.
pub open spec fn sort_plan(m: Menu) -> Seq<SortStep> {
    tool_steps(m, Gear::Axe, AXE_HOTBAR_INDEX as int) + tool_steps(
        m,
        Gear::Sword,
        SWORD_HOTBAR_INDEX as int,
    ) + tool_steps(m, Gear::Pickaxe, PICKAXE_HOTBAR_INDEX as int) + tool_steps(
        m,
        Gear::Shovel,
        SHOVEL_HOTBAR_INDEX as int,
    ) + tool_steps(m, Gear::Hoe, HOE_HOTBAR_INDEX as int) + armor_steps(
        m,
        Gear::Helmet,
        HEAD_SLOT_INDEX as int,
    ) + armor_steps(m, Gear::Chestplate, CHEST_SLOT_INDEX as int) + armor_steps(
        m,
        Gear::Leggings,
        LEGS_SLOT_INDEX as int,
    ) + armor_steps(m, Gear::Boots, FEET_SLOT_INDEX as int)
}

fn push_tool_steps(menu: &Menu, g: Gear, hotbar_index: usize, plan: &mut Vec<SortStep>)
    requires
        hotbar_index <= 8,
    ensures
        final(plan)@ == old(plan)@ + tool_steps(*menu, g, hotbar_index as int),
{
    match best_gear(menu, g) {
        Some((slot, _)) => {
            if slot != menu.hotbar_index_to_slot_index(hotbar_index) {
                plan.push(SortStep::Swap { source_slot: slot, hotbar_index });
            }
        },
        None => {},
    }
    assert(plan@ =~= old(plan)@ + tool_steps(*menu, g, hotbar_index as int));
}

fn push_armor_steps(menu: &Menu, g: Gear, armor_slot: usize, plan: &mut Vec<SortStep>)
    ensures
        final(plan)@ == old(plan)@ + armor_steps(*menu, g, armor_slot as int),
{
    match best_gear(menu, g) {
        Some((slot, _)) => {
            if slot != armor_slot {
                if menu.slot(armor_slot).is_some() {
                    plan.push(SortStep::ShiftClick { slot: armor_slot });
                }
                plan.push(SortStep::ShiftClick { slot });
            }
        },
        None => {},
    }
    assert(plan@ =~= old(plan)@ + armor_steps(*menu, g, armor_slot as int));
}

/// The clicks that sort the inventory of `menu`, as `sort_plan` says. All are
/// read off this one menu; the caller opens the inventory before the first click.
pub fn sort_inventory(menu: &Menu) -> (r: Vec<SortStep>)
    ensures
        r@ == sort_plan(*menu),
{
    let mut plan: Vec<SortStep> = Vec::new();
    push_tool_steps(menu, Gear::Axe, AXE_HOTBAR_INDEX, &mut plan);
    push_tool_steps(menu, Gear::Sword, SWORD_HOTBAR_INDEX, &mut plan);
    push_tool_steps(menu, Gear::Pickaxe, PICKAXE_HOTBAR_INDEX, &mut plan);
    push_tool_steps(menu, Gear::Shovel, SHOVEL_HOTBAR_INDEX, &mut plan);
    push_tool_steps(menu, Gear::Hoe, HOE_HOTBAR_INDEX, &mut plan);
    push_armor_steps(menu, Gear::Helmet, HEAD_SLOT_INDEX, &mut plan);
    push_armor_steps(menu, Gear::Chestplate, CHEST_SLOT_INDEX, &mut plan);
    push_armor_steps(menu, Gear::Leggings, LEGS_SLOT_INDEX, &mut plan);
    push_armor_steps(menu, Gear::Boots, FEET_SLOT_INDEX, &mut plan);
    assert(plan@ =~= sort_plan(*menu));
    plan
}

/// Whether sorting the inventory of `menu` would click anything.
pub fn should_sort_inventory(menu: &Menu) -> (r: bool)
    ensures
        r == (sort_plan(*menu).len() > 0),
{
    sort_inventory(menu).len() > 0
}

} // verus!

verus! {

/// Every step names a slot of a menu of `len` slots, and every swap a hotbar place.
pub open spec fn steps_in_menu(s: Seq<SortStep>, len: nat) -> bool {
    forall|i: int|
        0 <= i < s.len() ==> match #[trigger] s[i] {
            SortStep::Swap { source_slot, hotbar_index } => source_slot < len && hotbar_index <= 8,
            SortStep::ShiftClick { slot } => slot < len,
        }
}

proof fn lemma_steps_in_menu_concat(a: Seq<SortStep>, b: Seq<SortStep>, len: nat)
    requires
        steps_in_menu(a, len),
        steps_in_menu(b, len),
    ensures
        steps_in_menu(a + b, len),
{
    assert forall|i: int| 0 <= i < (a + b).len() implies match #[trigger] (a + b)[i] {
        SortStep::Swap { source_slot, hotbar_index } => source_slot < len && hotbar_index <= 8,
        SortStep::ShiftClick { slot } => slot < len,
    } by {
        if i < a.len() {
            assert((a + b)[i] == a[i]);
        } else {
            assert((a + b)[i] == b[i - a.len()]);
        }
    }
}

proof fn lemma_tool_steps_in_menu(m: Menu, g: Gear, h: int)
    requires
        0 <= h <= 8,
    ensures
        steps_in_menu(tool_steps(m, g, h), m.slots_view().len()),
{
    lemma_best_slot(m.slots_view(), gear_order(g));
}

proof fn lemma_armor_steps_in_menu(m: Menu, g: Gear, a: int)
    requires
        0 <= a,
    ensures
        steps_in_menu(armor_steps(m, g, a), m.slots_view().len()),
{
    lemma_best_slot(m.slots_view(), gear_order(g));
    let len = m.slots_view().len();
    if let Some(b) = best_slot(m.slots_view(), gear_order(g)) {
        if b != a {
            let first: Seq<SortStep> = if a < len {
                seq![SortStep::ShiftClick { slot: a as usize }]
            } else {
                seq![]
            };
            let second = seq![SortStep::ShiftClick { slot: b as usize }];
            lemma_steps_in_menu_concat(first, second, len);
        }
    }
}

/// Every click that sorting plans names a slot of the menu, and every swap a
/// place of the hotbar.
pub proof fn lemma_sort_plan_in_menu(m: Menu)
    ensures
        steps_in_menu(sort_plan(m), m.slots_view().len()),
{
    let len = m.slots_view().len();
    lemma_tool_steps_in_menu(m, Gear::Axe, 0);
    lemma_tool_steps_in_menu(m, Gear::Sword, 1);
    lemma_tool_steps_in_menu(m, Gear::Pickaxe, 2);
    lemma_tool_steps_in_menu(m, Gear::Shovel, 3);
    lemma_tool_steps_in_menu(m, Gear::Hoe, 4);
    lemma_armor_steps_in_menu(m, Gear::Helmet, 5);
    lemma_armor_steps_in_menu(m, Gear::Chestplate, 6);
    lemma_armor_steps_in_menu(m, Gear::Leggings, 7);
    lemma_armor_steps_in_menu(m, Gear::Boots, 8);
    let s1 = tool_steps(m, Gear::Axe, 0);
    let s2 = s1 + tool_steps(m, Gear::Sword, 1);
    lemma_steps_in_menu_concat(s1, tool_steps(m, Gear::Sword, 1), len);
    let s3 = s2 + tool_steps(m, Gear::Pickaxe, 2);
    lemma_steps_in_menu_concat(s2, tool_steps(m, Gear::Pickaxe, 2), len);
    let s4 = s3 + tool_steps(m, Gear::Shovel, 3);
    lemma_steps_in_menu_concat(s3, tool_steps(m, Gear::Shovel, 3), len);
    let s5 = s4 + tool_steps(m, Gear::Hoe, 4);
    lemma_steps_in_menu_concat(s4, tool_steps(m, Gear::Hoe, 4), len);
    let s6 = s5 + armor_steps(m, Gear::Helmet, 5);
    lemma_steps_in_menu_concat(s5, armor_steps(m, Gear::Helmet, 5), len);
    let s7 = s6 + armor_steps(m, Gear::Chestplate, 6);
    lemma_steps_in_menu_concat(s6, armor_steps(m, Gear::Chestplate, 6), len);
    let s8 = s7 + armor_steps(m, Gear::Leggings, 7);
    lemma_steps_in_menu_concat(s7, armor_steps(m, Gear::Leggings, 7), len);
    lemma_steps_in_menu_concat(s8, armor_steps(m, Gear::Boots, 8), len);
}

} // verus!

verus! {

/// The gear that an item kind is, if any.
pub open spec fn gear_of(k: ItemKind) -> Option<Gear> {
    match k {
        ItemKind::WoodenAxe | ItemKind::GoldenAxe | ItemKind::StoneAxe | ItemKind::CopperAxe
        | ItemKind::IronAxe | ItemKind::DiamondAxe | ItemKind::NetheriteAxe => Some(Gear::Axe),
        ItemKind::WoodenSword | ItemKind::GoldenSword | ItemKind::StoneSword
        | ItemKind::CopperSword | ItemKind::IronSword | ItemKind::DiamondSword
        | ItemKind::NetheriteSword => Some(Gear::Sword),
        ItemKind::WoodenPickaxe | ItemKind::GoldenPickaxe | ItemKind::StonePickaxe
        | ItemKind::CopperPickaxe | ItemKind::IronPickaxe | ItemKind::DiamondPickaxe
        | ItemKind::NetheritePickaxe => Some(Gear::Pickaxe),
        ItemKind::WoodenShovel | ItemKind::GoldenShovel | ItemKind::StoneShovel
        | ItemKind::CopperShovel | ItemKind::IronShovel | ItemKind::DiamondShovel
        | ItemKind::NetheriteShovel => Some(Gear::Shovel),
        ItemKind::WoodenHoe | ItemKind::GoldenHoe | ItemKind::StoneHoe | ItemKind::CopperHoe
        | ItemKind::IronHoe | ItemKind::DiamondHoe | ItemKind::NetheriteHoe => Some(Gear::Hoe),
        ItemKind::LeatherHelmet | ItemKind::GoldenHelmet | ItemKind::CopperHelmet
        | ItemKind::ChainmailHelmet | ItemKind::IronHelmet | ItemKind::TurtleHelmet
        | ItemKind::DiamondHelmet | ItemKind::NetheriteHelmet => Some(Gear::Helmet),
        ItemKind::LeatherChestplate | ItemKind::CopperChestplate | ItemKind::GoldenChestplate
        | ItemKind::ChainmailChestplate | ItemKind::IronChestplate
        | ItemKind::DiamondChestplate | ItemKind::NetheriteChestplate => Some(Gear::Chestplate),
        ItemKind::LeatherLeggings | ItemKind::GoldenLeggings | ItemKind::CopperLeggings
        | ItemKind::ChainmailLeggings | ItemKind::IronLeggings | ItemKind::DiamondLeggings
        | ItemKind::NetheriteLeggings => Some(Gear::Leggings),
        ItemKind::LeatherBoots | ItemKind::GoldenBoots | ItemKind::CopperBoots
        | ItemKind::ChainmailBoots | ItemKind::IronBoots | ItemKind::DiamondBoots
        | ItemKind::NetheriteBoots => Some(Gear::Boots),
        ItemKind::Other => None,
    }
}

/// The tier of an item of gear by its material, from 0 for the worst: tools go
/// wooden, golden, stone, copper, iron, diamond, netherite; helmets leather,
/// golden, copper, chainmail, iron, turtle, diamond, netherite; chestplates
/// leather, copper, golden, chainmail, iron, diamond, netherite; leggings and
/// boots leather, golden, copper, chainmail, iron, diamond, netherite.
pub open spec fn tier(k: ItemKind) -> int {
    match k {
        ItemKind::WoodenAxe | ItemKind::WoodenSword | ItemKind::WoodenPickaxe
        | ItemKind::WoodenShovel | ItemKind::WoodenHoe | ItemKind::LeatherHelmet
        | ItemKind::LeatherChestplate | ItemKind::LeatherLeggings | ItemKind::LeatherBoots => 0,
        ItemKind::GoldenAxe | ItemKind::GoldenSword | ItemKind::GoldenPickaxe
        | ItemKind::GoldenShovel | ItemKind::GoldenHoe | ItemKind::GoldenHelmet
        | ItemKind::CopperChestplate | ItemKind::GoldenLeggings | ItemKind::GoldenBoots => 1,
        ItemKind::StoneAxe | ItemKind::StoneSword | ItemKind::StonePickaxe
        | ItemKind::StoneShovel | ItemKind::StoneHoe | ItemKind::CopperHelmet
        | ItemKind::GoldenChestplate | ItemKind::CopperLeggings | ItemKind::CopperBoots => 2,
        ItemKind::CopperAxe | ItemKind::CopperSword | ItemKind::CopperPickaxe
        | ItemKind::CopperShovel | ItemKind::CopperHoe | ItemKind::ChainmailHelmet
        | ItemKind::ChainmailChestplate | ItemKind::ChainmailLeggings
        | ItemKind::ChainmailBoots => 3,
        ItemKind::IronAxe | ItemKind::IronSword | ItemKind::IronPickaxe | ItemKind::IronShovel
        | ItemKind::IronHoe | ItemKind::IronHelmet | ItemKind::IronChestplate
        | ItemKind::IronLeggings | ItemKind::IronBoots => 4,
        ItemKind::DiamondAxe | ItemKind::DiamondSword | ItemKind::DiamondPickaxe
        | ItemKind::DiamondShovel | ItemKind::DiamondHoe | ItemKind::TurtleHelmet
        | ItemKind::DiamondChestplate | ItemKind::DiamondLeggings | ItemKind::DiamondBoots => 5,
        ItemKind::NetheriteAxe | ItemKind::NetheriteSword | ItemKind::NetheritePickaxe
        | ItemKind::NetheriteShovel | ItemKind::NetheriteHoe | ItemKind::DiamondHelmet
        | ItemKind::NetheriteChestplate | ItemKind::NetheriteLeggings
        | ItemKind::NetheriteBoots => 6,
        ItemKind::NetheriteHelmet => 7,
        ItemKind::Other => 0,
    }
}

/// The rank of a kind in the order of gear `g` is its material tier, and only
/// the kinds of that gear have a rank.
pub proof fn lemma_gear_order_by_tier(g: Gear, k: ItemKind)
    ensures
        position_in(gear_order(g), k) == if gear_of(k) == Some(g) {
            Some(tier(k))
        } else {
            None::<int>
        },
{
    reveal_with_fuel(position_in, 9);
    let o = gear_order(g);
    assert(o.drop_first() =~= o.subrange(1, o.len() as int));
    match g {
        Gear::Boots => {
            assert(o.drop_first().drop_first() =~= o.subrange(2, o.len() as int));
        },
        _ => {},
    }
}

} // verus!

verus! {

/// The best gear of a kind is picked by material tier: the picked slot holds
/// that gear, no slot holds it in a higher tier, and no later slot holds it in
/// the same tier; nothing is picked only when the menu holds none of that gear.
pub proof fn lemma_best_gear_by_tier(m: Menu, g: Gear)
    requires
        m.layout_holds(),
    ensures
        best_gear_spec(&m, g) matches Some((b, k)) ==> {
            &&& b < m.slots_view().len()
            &&& k == m.slots_view()[b as int]
            &&& gear_of(k) == Some(g)
            &&& forall|j: int|
                0 <= j < m.slots_view().len() && gear_of(#[trigger] m.slots_view()[j]) == Some(g)
                    ==> tier(m.slots_view()[j]) <= tier(k) && (j > b ==> tier(m.slots_view()[j])
                    < tier(k))
        },
        best_gear_spec(&m, g) is None ==> forall|j: int|
            0 <= j < m.slots_view().len() ==> gear_of(#[trigger] m.slots_view()[j]) != Some(g),
{
    let s = m.slots_view();
    let o = gear_order(g);
    lemma_best_slot(s, o);
    match best_slot(s, o) {
        Some(b) => {
            lemma_gear_order_by_tier(g, s[b]);
            let k = s[b];
            assert forall|j: int|
                0 <= j < s.len() && gear_of(#[trigger] s[j]) == Some(g) implies tier(s[j]) <= tier(k)
                && (j > b ==> tier(s[j]) < tier(k)) by {
                lemma_gear_order_by_tier(g, s[j]);
            }
        },
        None => {
            assert forall|j: int| 0 <= j < s.len() implies gear_of(#[trigger] s[j]) != Some(g) by {
                lemma_gear_order_by_tier(g, s[j]);
            }
        },
    }
}

/// The gear whose best tool belongs at hotbar place `h` (0 to 4).
pub open spec fn tool_for_place(h: int) -> Gear {
    if h == 0 {
        Gear::Axe
    } else if h == 1 {
        Gear::Sword
    } else if h == 2 {
        Gear::Pickaxe
    } else if h == 3 {
        Gear::Shovel
    } else {
        Gear::Hoe
    }
}

/// Every swap of `s` moves the best tool of the gear of its hotbar place, from
/// a slot that is not that place's slot.
pub open spec fn swaps_move_best_tools(s: Seq<SortStep>, m: Menu) -> bool {
    forall|i: int|
        0 <= i < s.len() ==> match #[trigger] s[i] {
            SortStep::Swap { source_slot, hotbar_index } => hotbar_index <= 4 && best_slot(
                m.slots_view(),
                gear_order(tool_for_place(hotbar_index as int)),
            ) == Some(source_slot as int) && source_slot != m.hotbar_start_view() + hotbar_index,
            SortStep::ShiftClick { .. } => true,
        }
}

proof fn lemma_swaps_concat(a: Seq<SortStep>, b: Seq<SortStep>, m: Menu)
    requires
        swaps_move_best_tools(a, m),
        swaps_move_best_tools(b, m),
    ensures
        swaps_move_best_tools(a + b, m),
{
    assert forall|i: int| 0 <= i < (a + b).len() implies match #[trigger] (a + b)[i] {
        SortStep::Swap { source_slot, hotbar_index } => hotbar_index <= 4 && best_slot(
            m.slots_view(),
            gear_order(tool_for_place(hotbar_index as int)),
        ) == Some(source_slot as int) && source_slot != m.hotbar_start_view() + hotbar_index,
        SortStep::ShiftClick { .. } => true,
    } by {
        if i < a.len() {
            assert((a + b)[i] == a[i]);
        } else {
            assert((a + b)[i] == b[i - a.len()]);
        }
    }
}

proof fn lemma_contains_concat(a: Seq<SortStep>, b: Seq<SortStep>, x: SortStep)
    ensures
        a.contains(x) ==> (a + b).contains(x),
        b.contains(x) ==> (a + b).contains(x),
{
    if a.contains(x) {
        let i = choose|i: int| 0 <= i < a.len() && a[i] == x;
        assert((a + b)[i] == x);
    }
    if b.contains(x) {
        let i = choose|i: int| 0 <= i < b.len() && b[i] == x;
        assert((a + b)[a.len() + i] == x);
    }
}

/// The swap that the best tool of gear `g` needs to reach hotbar place `h`:
/// when it exists and is elsewhere, the plan holds this swap.
pub open spec fn plan_swaps_tool_in(m: Menu, g: Gear, h: int) -> bool {
    match best_slot(m.slots_view(), gear_order(g)) {
        Some(b) => b != m.hotbar_start_view() + h ==> sort_plan(m).contains(
            SortStep::Swap { source_slot: b as usize, hotbar_index: h as usize },
        ),
        None => true,
    }
}

/// The best armour of gear `g`, when it is not in its slot `a`, is shift-clicked,
/// and so is the armour slot itself (to empty it).
pub open spec fn plan_moves_armor_in(m: Menu, g: Gear, a: int) -> bool {
    match best_slot(m.slots_view(), gear_order(g)) {
        Some(b) => b != a ==> sort_plan(m).contains(SortStep::ShiftClick { slot: b as usize })
            && sort_plan(m).contains(SortStep::ShiftClick { slot: a as usize }),
        None => true,
    }
}

proof fn lemma_tool_piece(m: Menu, g: Gear, h: int)
    requires
        m.layout_holds(),
        0 <= h <= 4,
        tool_for_place(h) == g,
    ensures
        swaps_move_best_tools(tool_steps(m, g, h), m),
        match best_slot(m.slots_view(), gear_order(g)) {
            Some(b) => b != m.hotbar_start_view() + h ==> tool_steps(m, g, h).contains(
                SortStep::Swap { source_slot: b as usize, hotbar_index: h as usize },
            ),
            None => true,
        },
{
    lemma_best_slot(m.slots_view(), gear_order(g));
    if let Some(b) = best_slot(m.slots_view(), gear_order(g)) {
        if b != m.hotbar_start_view() + h {
            assert(tool_steps(m, g, h)[0] == SortStep::Swap {
                source_slot: b as usize,
                hotbar_index: h as usize,
            });
        }
    }
}

proof fn lemma_armor_piece(m: Menu, g: Gear, a: int)
    requires
        0 <= a <= 8,
        m.layout_holds(),
    ensures
        swaps_move_best_tools(armor_steps(m, g, a), m),
        match best_slot(m.slots_view(), gear_order(g)) {
            Some(b) => b != a ==> armor_steps(m, g, a).contains(
                SortStep::ShiftClick { slot: b as usize },
            ) && (a < m.slots_view().len() ==> armor_steps(m, g, a).contains(
                SortStep::ShiftClick { slot: a as usize },
            )),
            None => true,
        },
{
    let s = armor_steps(m, g, a);
    if let Some(b) = best_slot(m.slots_view(), gear_order(g)) {
        if b != a {
            assert(s[s.len() - 1] == SortStep::ShiftClick { slot: b as usize });
            if a < m.slots_view().len() {
                assert(s[0] == SortStep::ShiftClick { slot: a as usize });
            }
        }
    }
    assert forall|i: int| 0 <= i < s.len() implies #[trigger] s[i] is ShiftClick by {}
}

/// The pieces of the plan, in order.
spec fn plan_pieces(m: Menu) -> Seq<Seq<SortStep>> {
    seq![
        tool_steps(m, Gear::Axe, 0),
        tool_steps(m, Gear::Sword, 1),
        tool_steps(m, Gear::Pickaxe, 2),
        tool_steps(m, Gear::Shovel, 3),
        tool_steps(m, Gear::Hoe, 4),
        armor_steps(m, Gear::Helmet, 5),
        armor_steps(m, Gear::Chestplate, 6),
        armor_steps(m, Gear::Leggings, 7),
        armor_steps(m, Gear::Boots, 8),
    ]
}

/// The concatenation of the first `n` pieces.
spec fn join_pieces(p: Seq<Seq<SortStep>>, n: nat) -> Seq<SortStep>
    decreases n,
{
    if n == 0 {
        seq![]
    } else {
        join_pieces(p, (n - 1) as nat) + p[n - 1]
    }
}

proof fn lemma_join_pieces(p: Seq<Seq<SortStep>>, n: nat, m: Menu)
    requires
        n <= p.len(),
        forall|i: int| 0 <= i < n ==> swaps_move_best_tools(#[trigger] p[i], m),
    ensures
        swaps_move_best_tools(join_pieces(p, n), m),
        forall|i: int, x: SortStep| #![trigger p[i].contains(x)] 0 <= i < n && p[i].contains(x) ==> join_pieces(
            p,
            n,
        ).contains(x),
    decreases n,
{
    if n > 0 {
        let k = (n - 1) as nat;
        lemma_join_pieces(p, k, m);
        lemma_swaps_concat(join_pieces(p, k), p[n - 1], m);
        assert forall|i: int, x: SortStep| #![trigger p[i].contains(x)] 0 <= i < n && p[i].contains(x) implies join_pieces(
            p,
            n,
        ).contains(x) by {
            lemma_contains_concat(join_pieces(p, k), p[n - 1], x);
        }
    }
}

proof fn lemma_plan_is_joined_pieces(m: Menu)
    ensures
        sort_plan(m) == join_pieces(plan_pieces(m), 9),
{
    let p = plan_pieces(m);
    reveal_with_fuel(join_pieces, 10);
    assert(join_pieces(p, 0) == Seq::<SortStep>::empty());
    assert(join_pieces(p, 1) =~= p[0]);
}

/// Sorting moves each tool that is not at its hotbar place: for the axe (place
/// 0), sword (1), pickaxe (2), shovel (3) and hoe (4), whenever the best one is
/// in a slot other than that place's slot, the plan swaps it into the place; and
/// every swap of the plan is such a move. Each best piece of armour not in its
/// slot is shift-clicked.
pub proof fn lemma_sort_plan_places_tools(m: Menu)
    requires
        m.layout_holds(),
    ensures
        plan_swaps_tool_in(m, Gear::Axe, 0),
        plan_swaps_tool_in(m, Gear::Sword, 1),
        plan_swaps_tool_in(m, Gear::Pickaxe, 2),
        plan_swaps_tool_in(m, Gear::Shovel, 3),
        plan_swaps_tool_in(m, Gear::Hoe, 4),
        plan_moves_armor_in(m, Gear::Helmet, 5),
        plan_moves_armor_in(m, Gear::Chestplate, 6),
        plan_moves_armor_in(m, Gear::Leggings, 7),
        plan_moves_armor_in(m, Gear::Boots, 8),
        swaps_move_best_tools(sort_plan(m), m),
{
    let p = plan_pieces(m);
    lemma_tool_piece(m, Gear::Axe, 0);
    lemma_tool_piece(m, Gear::Sword, 1);
    lemma_tool_piece(m, Gear::Pickaxe, 2);
    lemma_tool_piece(m, Gear::Shovel, 3);
    lemma_tool_piece(m, Gear::Hoe, 4);
    lemma_armor_piece(m, Gear::Helmet, 5);
    lemma_armor_piece(m, Gear::Chestplate, 6);
    lemma_armor_piece(m, Gear::Leggings, 7);
    lemma_armor_piece(m, Gear::Boots, 8);
    assert forall|i: int| 0 <= i < 9 implies swaps_move_best_tools(#[trigger] p[i], m) by {}
    lemma_join_pieces(p, 9, m);
    lemma_plan_is_joined_pieces(m);
    assert(p[0] == tool_steps(m, Gear::Axe, 0));
    assert(p[1] == tool_steps(m, Gear::Sword, 1));
    assert(p[2] == tool_steps(m, Gear::Pickaxe, 2));
    assert(p[3] == tool_steps(m, Gear::Shovel, 3));
    assert(p[4] == tool_steps(m, Gear::Hoe, 4));
    assert(p[5] == armor_steps(m, Gear::Helmet, 5));
    assert(p[6] == armor_steps(m, Gear::Chestplate, 6));
    assert(p[7] == armor_steps(m, Gear::Leggings, 7));
    assert(p[8] == armor_steps(m, Gear::Boots, 8));
}

} // verus!
