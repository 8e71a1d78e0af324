//! Placing towers, the build catalog, and tower upgrades.
use vstd::prelude::*;
use vstd::string::StringExecFns;
use crate::economy::{Player, TowerKind, spec_can_afford, spec_paid, spec_base_damage, can_afford, pay_for_tower};
use crate::controls::{BuildControls, TowerBuildSelection, BuildMenuState, GameState};

verus! {

/// Outcome of the tower placement rules for one frame.
#[derive(Debug, Clone, Copy, PartialEq, Eq, Structural)]
pub enum BuildStep {
    /// No preview should be shown.
    ClearGhost,
    /// The view is not ready; leave the preview as it is.
    KeepGhost,
    /// Show the preview of `kind`, green when `valid`.
    Preview { kind: TowerKind, valid: bool },
    /// A tower of `kind` was paid for and is placed; the preview goes away.
    Placed { kind: TowerKind },
    /// A click on an invalid spot (out of range or unaffordable).
    Rejected { kind: TowerKind },
}

/// One frame of tower placement. The preview exists only in building mode with a
/// chosen tower and a ground point under the cursor; a click on a valid spot (in range
/// and affordable) pays the tower's price and clears the choice.
pub fn tower_building_step(
    ctrl: &BuildControls,
    sel: &mut TowerBuildSelection,
    view_ready: bool,
    target_ready: bool,
    in_range: bool,
    player: &mut Player,
    has_player: bool,
    clicked: bool,
) -> (step: BuildStep)
    ensures
        !ctrl.building_active || old(sel).choice is None ==> step == BuildStep::ClearGhost
            && *final(sel) == *old(sel) && *final(player) == *old(player),
        ctrl.building_active && old(sel).choice is Some && !view_ready ==> step == BuildStep::KeepGhost
            && *final(sel) == *old(sel) && *final(player) == *old(player),
        ctrl.building_active && old(sel).choice is Some && view_ready && !target_ready ==> step == BuildStep::ClearGhost
            && *final(sel) == *old(sel) && *final(player) == *old(player),
        ctrl.building_active && view_ready && target_ready ==> (old(sel).choice matches Some(kind) ==> {
            let valid = in_range && has_player && spec_can_afford(*old(player), kind);
            if valid && clicked {
                &&& step == (BuildStep::Placed { kind })
                &&& *final(player) == spec_paid(*old(player), kind)
                &&& *final(sel) == (TowerBuildSelection { choice: None, ..*old(sel) })
            } else {
                &&& step == (if clicked { BuildStep::Rejected { kind } } else { BuildStep::Preview { kind, valid } })
                &&& *final(player) == *old(player)
                &&& *final(sel) == *old(sel)
            }
        }),
{
    if !ctrl.building_active {
        return BuildStep::ClearGhost;
    }
    let kind = match sel.choice {
        None => {
            return BuildStep::ClearGhost;
        },
        Some(k) => k,
    };
    if !view_ready {
        return BuildStep::KeepGhost;
    }
    if !target_ready {
        return BuildStep::ClearGhost;
    }
    let affordable = has_player && can_afford(player, kind);
    let valid = in_range && affordable;
    if valid && clicked {
        pay_for_tower(player, kind);
        sel.choice = None;
        BuildStep::Placed { kind }
    } else if clicked {
        BuildStep::Rejected { kind }
    } else {
        BuildStep::Preview { kind, valid }
    }
}

/// Categories of the build menu.
#[derive(Clone, Copy, Debug, Eq, PartialEq, Hash, Structural)]
pub enum BuildCategory {
    Towers,
    Upgrades,
}

/// Stable identifier of a catalog entry.
pub struct BuildDefinitionId(pub String);

/// A buildable item of the catalog.
pub struct BuildDefinition {
    pub id: BuildDefinitionId,
    pub category: BuildCategory,
    pub display_name: String,
    pub cost: u32,
    pub footprint_cells: (u32, u32),
}

/// A purchasable tower upgrade of the catalog.
pub struct UpgradeDefinition {
    pub id: BuildDefinitionId,
    pub display_name: String,
    pub gold_cost: u64,
    pub silver_cost: u64,
    pub tower_kind: TowerKind,
}

/// Everything the build menu offers.
pub struct BuildCatalog {
    pub items: Vec<BuildDefinition>,
    pub upgrades: Vec<UpgradeDefinition>,
}

impl BuildCatalog {
    /// An empty catalog.
    pub fn new() -> (c: Self)
        ensures
            c.items@.len() == 0,
            c.upgrades@.len() == 0,
    {
        BuildCatalog { items: Vec::new(), upgrades: Vec::new() }
    }

    /// The default items: bow and crossbow towers, with bow and crossbow damage upgrades.
    pub open spec fn is_default(&self) -> bool {
        &&& self.items@.len() == 2
        &&& self.items@[0].id.0@ == "bow_tower"@
        &&& self.items@[0].category == BuildCategory::Towers
        &&& self.items@[0].display_name@ == "Bow Tower"@
        &&& self.items@[0].cost == 10
        &&& self.items@[0].footprint_cells == (1u32, 1u32)
        &&& self.items@[1].id.0@ == "crossbow_tower"@
        &&& self.items@[1].category == BuildCategory::Towers
        &&& self.items@[1].display_name@ == "Crossbow Tower"@
        &&& self.items@[1].cost == 20
        &&& self.items@[1].footprint_cells == (1u32, 1u32)
        &&& self.upgrades@.len() == 2
        &&& self.upgrades@[0].id.0@ == "bow_damage_upgrade"@
        &&& self.upgrades@[0].display_name@ == "Bow Damage"@
        &&& self.upgrades@[0].gold_cost == 5
        &&& self.upgrades@[0].silver_cost == 10
        &&& self.upgrades@[0].tower_kind == TowerKind::Bow
        &&& self.upgrades@[1].id.0@ == "crossbow_damage_upgrade"@
        &&& self.upgrades@[1].display_name@ == "Crossbow Damage"@
        &&& self.upgrades@[1].gold_cost == 10
        &&& self.upgrades@[1].silver_cost == 20
        &&& self.upgrades@[1].tower_kind == TowerKind::Crossbow
    }

    /// Fill an empty catalog with the default items and upgrades; a catalog that has
    /// items is left alone.
    pub fn ensure_defaults(&mut self)
        ensures
            old(self).items@.len() > 0 ==> final(self).items@ == old(self).items@
                && final(self).upgrades@ == old(self).upgrades@,
            old(self).items@.len() == 0 ==> final(self).is_default(),
    {
        if self.items.len() > 0 {
            return;
        }
        let mut items: Vec<BuildDefinition> = Vec::new();
        items.push(BuildDefinition {
            id: BuildDefinitionId(String::from_str("bow_tower")),
            category: BuildCategory::Towers,
            display_name: String::from_str("Bow Tower"),
            cost: 10,
            footprint_cells: (1, 1),
        });
        items.push(BuildDefinition {
            id: BuildDefinitionId(String::from_str("crossbow_tower")),
            category: BuildCategory::Towers,
            display_name: String::from_str("Crossbow Tower"),
            cost: 20,
            footprint_cells: (1, 1),
        });
        let mut upgrades: Vec<UpgradeDefinition> = Vec::new();
        upgrades.push(UpgradeDefinition {
            id: BuildDefinitionId(String::from_str("bow_damage_upgrade")),
            display_name: String::from_str("Bow Damage"),
            gold_cost: 5,
            silver_cost: 10,
            tower_kind: TowerKind::Bow,
        });
        upgrades.push(UpgradeDefinition {
            id: BuildDefinitionId(String::from_str("crossbow_damage_upgrade")),
            display_name: String::from_str("Crossbow Damage"),
            gold_cost: 10,
            silver_cost: 20,
            tower_kind: TowerKind::Crossbow,
        });
        self.items = items;
        self.upgrades = upgrades;
    }

    /// Index of the first item whose id is `id`.
    pub fn find_item(&self, id: &BuildDefinitionId) -> (r: Option<usize>)
        ensures
            r matches Some(i) ==> i < self.items@.len() && self.items@[i as int].id.0@ == id.0@
                && forall|k: int| 0 <= k < i ==> self.items@[k].id.0@ != id.0@,
            r is None ==> forall|k: int| 0 <= k < self.items@.len() ==> self.items@[k].id.0@ != id.0@,
    {
        let mut i: usize = 0;
        while i < self.items.len()
            invariant
                0 <= i <= self.items@.len(),
                forall|k: int| 0 <= k < i ==> self.items@[k].id.0@ != id.0@,
            decreases self.items@.len() - i,
        {
            if self.items[i].id.0 == id.0 {
                return Some(i);
            }
            i = i + 1;
        }
        None
    }

    /// Index of the first upgrade whose id is `id`.
    pub fn find_upgrade(&self, id: &BuildDefinitionId) -> (r: Option<usize>)
        ensures
            r matches Some(i) ==> i < self.upgrades@.len() && self.upgrades@[i as int].id.0@ == id.0@
                && forall|k: int| 0 <= k < i ==> self.upgrades@[k].id.0@ != id.0@,
            r is None ==> forall|k: int| 0 <= k < self.upgrades@.len() ==> self.upgrades@[k].id.0@ != id.0@,
    {
        let mut i: usize = 0;
        while i < self.upgrades.len()
            invariant
                0 <= i <= self.upgrades@.len(),
                forall|k: int| 0 <= k < i ==> self.upgrades@[k].id.0@ != id.0@,
            decreases self.upgrades@.len() - i,
        {
            if self.upgrades[i].id.0 == id.0 {
                return Some(i);
            }
            i = i + 1;
        }
        None
    }
}

/// Positions of the catalog items of a category, in catalog order: the cards the build
/// menu shows for that category.
pub fn items_in_category(catalog: &BuildCatalog, category: BuildCategory) -> (v: Vec<usize>)
    ensures
        forall|j: int| 0 <= j < v@.len() ==> #[trigger] v@[j] < catalog.items@.len()
            && catalog.items@[v@[j] as int].category == category,
        forall|j: int, k: int| 0 <= j < k < v@.len() ==> #[trigger] v@[j] < #[trigger] v@[k],
        forall|i: int| 0 <= i < catalog.items@.len() && #[trigger] catalog.items@[i].category == category
            ==> v@.contains(i as usize),
{
    let mut v: Vec<usize> = Vec::new();
    let mut i: usize = 0;
    while i < catalog.items.len()
        invariant
            0 <= i <= catalog.items@.len(),
            forall|j: int| 0 <= j < v@.len() ==> #[trigger] v@[j] < i
                && catalog.items@[v@[j] as int].category == category,
            forall|j: int, k: int| 0 <= j < k < v@.len() ==> #[trigger] v@[j] < #[trigger] v@[k],
            forall|m: int| 0 <= m < i && #[trigger] catalog.items@[m].category == category
                ==> v@.contains(m as usize),
        decreases catalog.items@.len() - i,
    {
        if catalog.items[i].category == category {
            let ghost old_v = v@;
            v.push(i);
            proof {
                assert(v@[old_v.len() as int] == i);
                assert forall|m: int| 0 <= m < i + 1 && #[trigger] catalog.items@[m].category == category
                    implies v@.contains(m as usize) by {
                    if m < i {
                        let k = choose|k: int| 0 <= k < old_v.len() && old_v[k] == m as usize;
                        assert(v@[k] == m as usize);
                    }
                }
            }
        }
        i = i + 1;
    }
    v
}

/// `i` is the first catalog item whose id is `id`.
pub open spec fn first_item_match(catalog: BuildCatalog, id: BuildDefinitionId, i: int) -> bool {
    &&& 0 <= i < catalog.items@.len()
    &&& catalog.items@[i].id.0@ == id.0@
    &&& forall|k: int| 0 <= k < i ==> catalog.items@[k].id.0@ != id.0@
}

/// Confirming the placement of a catalog item: its cost is counted in wood. When the
/// first item with that id exists and there is a player, the placement goes ahead only
/// if the player has that much wood, which is then paid; otherwise it goes ahead free.
/// Returns whether the item is placed.
pub fn pay_for_catalog_item(
    catalog: &BuildCatalog,
    id: &BuildDefinitionId,
    player: &mut Player,
    has_player: bool,
) -> (placed: bool)
    ensures
        has_player && (exists|i: int| first_item_match(*catalog, *id, i)) ==> {
            let i = choose|i: int| first_item_match(*catalog, *id, i);
            let cost = catalog.items@[i].cost;
            &&& placed == (old(player).wood >= cost)
            &&& placed ==> *final(player) == (Player { wood: (old(player).wood - cost) as u32, ..*old(player) })
            &&& !placed ==> *final(player) == *old(player)
        },
        !(has_player && (exists|i: int| first_item_match(*catalog, *id, i))) ==> {
            &&& placed
            &&& *final(player) == *old(player)
        },
{
    let found = catalog.find_item(id);
    match found {
        Some(i) => {
            proof {
                assert(first_item_match(*catalog, *id, i as int));
                let j = choose|j: int| first_item_match(*catalog, *id, j);
                if j < i as int {
                    assert(catalog.items@[j].id.0@ != id.0@);
                } else if (i as int) < j {
                    assert(catalog.items@[i as int].id.0@ != id.0@);
                }
            }
            if !has_player {
                return true;
            }
            let cost = catalog.items[i].cost;
            if player.wood < cost {
                return false;
            }
            player.wood = player.wood - cost;
            true
        },
        None => true,
    }
}

/// The tower a catalog item builds: `bow_tower` and `crossbow_tower`; other items none.
pub fn tower_kind_for_item(id: &BuildDefinitionId) -> (k: Option<TowerKind>)
    ensures
        id.0@ == "bow_tower"@ ==> k == Some(TowerKind::Bow),
        id.0@ == "crossbow_tower"@ ==> k == Some(TowerKind::Crossbow),
        id.0@ != "bow_tower"@ && id.0@ != "crossbow_tower"@ ==> k is None,
{
    proof {
        reveal_strlit("bow_tower");
        reveal_strlit("crossbow_tower");
        assert("bow_tower"@.len() == 9);
        assert("crossbow_tower"@.len() == 14);
    }
    let bow = String::from_str("bow_tower");
    let crossbow = String::from_str("crossbow_tower");
    if id.0 == bow {
        Some(TowerKind::Bow)
    } else if id.0 == crossbow {
        Some(TowerKind::Crossbow)
    } else {
        None
    }
}


/// A catalog item was pressed in the build menu: a tower item becomes the building
/// choice and turns building mode on; the menu closes and play resumes.
pub fn handle_item_selection(
    id: &BuildDefinitionId,
    ctrl: &mut BuildControls,
    sel: &mut TowerBuildSelection,
    menu: &mut BuildMenuState,
) -> (next: GameState)
    ensures
        next == GameState::Playing,
        *final(menu) == BuildMenuState::Closed,
        (id.0@ == "bow_tower"@ || id.0@ == "crossbow_tower"@) ==> {
            &&& final(sel).choice == (if id.0@ == "bow_tower"@ { Some(TowerKind::Bow) } else { Some(TowerKind::Crossbow) })
            &&& final(sel).hovered_choice == old(sel).hovered_choice
            &&& final(sel).drawer_open == old(sel).drawer_open
            &&& *final(ctrl) == (BuildControls { building_active: true, ..*old(ctrl) })
        },
        !(id.0@ == "bow_tower"@ || id.0@ == "crossbow_tower"@) ==> *final(sel) == *old(sel) && *final(ctrl) == *old(ctrl),
{
    match tower_kind_for_item(id) {
        Some(kind) => {
            sel.choice = Some(kind);
            ctrl.building_active = true;
        },
        None => {},
    }
    *menu = BuildMenuState::Closed;
    GameState::Playing
}

} // verus!
