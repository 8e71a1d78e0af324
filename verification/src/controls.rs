//! Game states and the input rules for building, selling and menus.
use vstd::prelude::*;
use crate::economy::{TowerKind, Player, can_afford, spec_can_afford};

verus! {

/// High-level app state controlling which systems run.
#[derive(Debug, Clone, Copy, PartialEq, Eq, Hash, Structural)]
pub enum GameState {
    Loading,
    Menu,
    Playing,
    Paused,
}

impl Default for GameState {
    fn default() -> (s: Self)
        ensures
            s == GameState::Menu,
    {
        GameState::Menu
    }
}

/// In the menu, `P` starts the game.
pub fn handle_menu_input(p_pressed: bool) -> (next: Option<GameState>)
    ensures
        next == (if p_pressed { Some(GameState::Playing) } else { None }),
{
    if p_pressed {
        Some(GameState::Playing)
    } else {
        None
    }
}

/// The state after the pause key in state `s`: playing and paused swap, others stay.
pub open spec fn spec_pause_toggle(s: GameState) -> Option<GameState> {
    match s {
        GameState::Playing => Some(GameState::Paused),
        GameState::Paused => Some(GameState::Playing),
        _ => None,
    }
}

/// Space toggles between playing and paused.
pub fn pause_toggle_input(state: GameState, space_pressed: bool) -> (next: Option<GameState>)
    ensures
        next == (if space_pressed { spec_pause_toggle(state) } else { None }),
{
    if space_pressed {
        match state {
            GameState::Playing => Some(GameState::Paused),
            GameState::Paused => Some(GameState::Playing),
            _ => None,
        }
    } else {
        None
    }
}

/// Pausing and unpausing returns to the state one started from.
pub proof fn law_pause_toggle_round_trip(s: GameState)
    requires
        s == GameState::Playing || s == GameState::Paused,
    ensures
        spec_pause_toggle(s) matches Some(t) && spec_pause_toggle(t) == Some(s),
{
}

/// Whether building mode and selling mode are on.
#[derive(Debug, Clone, Copy, PartialEq, Eq, Structural)]
pub struct BuildControls {
    pub building_active: bool,
    pub selling_active: bool,
}

/// Tower chosen for building, tower hovered in the drawer, and whether the
/// tower selection drawer is shown.
#[derive(Debug, Clone, Copy, PartialEq, Eq, Structural)]
pub struct TowerBuildSelection {
    pub choice: Option<TowerKind>,
    pub hovered_choice: Option<TowerKind>,
    pub drawer_open: bool,
}

impl Default for TowerBuildSelection {
    fn default() -> (s: Self)
        ensures
            s == (TowerBuildSelection { choice: None, hovered_choice: None, drawer_open: false }),
    {
        TowerBuildSelection { choice: None, hovered_choice: None, drawer_open: false }
    }
}

/// In game: cancel (Escape or right click) leaves building and selling mode and, if
/// anything was being built or chosen, clears the choice and ends the frame's handling;
/// otherwise `B` toggles building mode and clears the choice.
pub fn handle_game_input(ctrl: &mut BuildControls, sel: &mut TowerBuildSelection, cancel: bool, toggle_build: bool)
    ensures
        ({
            let c0 = *old(ctrl);
            let s0 = *old(sel);
            let busy = c0.building_active || s0.choice is Some || s0.hovered_choice is Some || s0.drawer_open;
            if cancel && busy {
                &&& *final(ctrl) == (BuildControls { building_active: false, selling_active: false })
                &&& *final(sel) == (TowerBuildSelection { choice: None, hovered_choice: None, ..s0 })
            } else {
                let c1 = if cancel { BuildControls { building_active: false, selling_active: false } } else { c0 };
                if toggle_build {
                    &&& *final(ctrl) == (BuildControls { building_active: !c1.building_active, ..c1 })
                    &&& *final(sel) == (TowerBuildSelection { choice: None, ..s0 })
                } else {
                    &&& *final(ctrl) == c1
                    &&& *final(sel) == s0
                }
            }
        }),
{
    if cancel {
        let was_building = ctrl.building_active;
        ctrl.building_active = false;
        ctrl.selling_active = false;
        if was_building || sel.choice.is_some() || sel.hovered_choice.is_some() || sel.drawer_open {
            sel.choice = None;
            sel.hovered_choice = None;
            return;
        }
    }
    if toggle_build {
        ctrl.building_active = !ctrl.building_active;
        sel.choice = None;
    }
}

/// What the tower drawer should do this frame.
#[derive(Debug, Clone, Copy, PartialEq, Eq, Structural)]
pub enum DrawerChange {
    Keep,
    /// Open the drawer; a tower option is enabled (clickable) when the player can
    /// afford that tower in both wood and rock.
    Open { bow_enabled: bool, crossbow_enabled: bool },
    Close,
}

/// The inventory the drawer judges affordability by: the player's, or an empty one
/// when there is no player.
pub open spec fn drawer_inventory(player: Option<Player>) -> Player {
    match player {
        Some(p) => p,
        None => Player { wood: 0, rock: 0, silver: 0, gold: 0 },
    }
}

/// The drawer is needed while building with no tower chosen; open it when needed and
/// absent, with each tower option enabled exactly when the player can afford it;
/// close it when present and not needed.
pub fn manage_tower_selection_drawer(
    ctrl: &BuildControls,
    sel: &mut TowerBuildSelection,
    player: Option<Player>,
) -> (change: DrawerChange)
    ensures
        ({
            let need = ctrl.building_active && old(sel).choice is None;
            let inv = drawer_inventory(player);
            &&& change == (if need && !old(sel).drawer_open {
                    DrawerChange::Open {
                        bow_enabled: spec_can_afford(inv, TowerKind::Bow),
                        crossbow_enabled: spec_can_afford(inv, TowerKind::Crossbow),
                    }
                }
                else if !need && old(sel).drawer_open { DrawerChange::Close }
                else { DrawerChange::Keep })
            &&& *final(sel) == (TowerBuildSelection {
                drawer_open: if need && !old(sel).drawer_open { true }
                    else if !need && old(sel).drawer_open { false }
                    else { old(sel).drawer_open },
                ..*old(sel)
            })
        }),
{
    let need = ctrl.building_active && sel.choice.is_none();
    if need && !sel.drawer_open {
        let inv = match player {
            Some(p) => p,
            None => Player { wood: 0, rock: 0, silver: 0, gold: 0 },
        };
        sel.drawer_open = true;
        DrawerChange::Open {
            bow_enabled: can_afford(&inv, TowerKind::Bow),
            crossbow_enabled: can_afford(&inv, TowerKind::Crossbow),
        }
    } else if !need && sel.drawer_open {
        sel.drawer_open = false;
        DrawerChange::Close
    } else {
        DrawerChange::Keep
    }
}

/// A tower button in the drawer was pressed: choose it and close the drawer.
pub fn handle_tower_selection_button(sel: &mut TowerBuildSelection, kind: TowerKind)
    ensures
        *final(sel) == (TowerBuildSelection { choice: Some(kind), hovered_choice: None, drawer_open: false }),
{
    sel.choice = Some(kind);
    sel.hovered_choice = None;
    sel.drawer_open = false;
}

/// Drawer shortcuts: `1` chooses the bow tower, `2` the crossbow tower, Escape leaves
/// building mode; any of them closes the drawer. Nothing happens without a drawer.
/// Returns whether the drawer was closed.
pub fn tower_drawer_shortcuts(
    ctrl: &mut BuildControls,
    sel: &mut TowerBuildSelection,
    one: bool,
    two: bool,
    escape: bool,
) -> (closed: bool)
    ensures
        !old(sel).drawer_open ==> !closed && *final(sel) == *old(sel) && *final(ctrl) == *old(ctrl),
        old(sel).drawer_open ==> {
            &&& closed == (one || two || escape)
            &&& final(sel).drawer_open == !(one || two || escape)
            &&& final(sel).choice == (if one { Some(TowerKind::Bow) } else if two { Some(TowerKind::Crossbow) } else { old(sel).choice })
            &&& final(sel).hovered_choice == (if !one && !two && escape { None } else { old(sel).hovered_choice })
            &&& *final(ctrl) == (if !one && !two && escape { BuildControls { building_active: false, ..*old(ctrl) } } else { *old(ctrl) })
        },
{
    if !sel.drawer_open {
        return false;
    }
    if one {
        sel.choice = Some(TowerKind::Bow);
    } else if two {
        sel.choice = Some(TowerKind::Crossbow);
    } else if escape {
        ctrl.building_active = false;
        sel.hovered_choice = None;
    }
    if one || two || escape {
        sel.drawer_open = false;
        true
    } else {
        false
    }
}

/// The sell button of the drawer: selling mode on, building mode off, no choice, drawer closed.
pub fn handle_drawer_sell_button(ctrl: &mut BuildControls, sel: &mut TowerBuildSelection)
    ensures
        *final(ctrl) == (BuildControls { building_active: false, selling_active: true }),
        *final(sel) == (TowerBuildSelection { choice: None, hovered_choice: None, drawer_open: false }),
{
    ctrl.selling_active = true;
    ctrl.building_active = false;
    sel.choice = None;
    sel.hovered_choice = None;
    sel.drawer_open = false;
}

/// Hovering a tower option in the drawer remembers it; leaving it forgets it.
pub fn update_tower_option_hover(sel: &mut TowerBuildSelection, kind: TowerKind, hovered: bool, pressed: bool)
    ensures
        hovered ==> *final(sel) == (TowerBuildSelection { hovered_choice: Some(kind), ..*old(sel) }),
        !hovered && pressed ==> *final(sel) == *old(sel),
        !hovered && !pressed ==> *final(sel) == (TowerBuildSelection { hovered_choice: None, ..*old(sel) }),
{
    if hovered {
        sel.hovered_choice = Some(kind);
    } else if !pressed {
        sel.hovered_choice = None;
    }
}

/// Whether the build menu is shown.
#[derive(Debug, Clone, Copy, PartialEq, Eq, Structural)]
pub enum BuildMenuState {
    Closed,
    Open,
}

impl Default for BuildMenuState {
    fn default() -> (s: Self)
        ensures
            s == BuildMenuState::Closed,
    {
        BuildMenuState::Closed
    }
}

/// Tab asks to toggle the build menu, only while playing or paused.
pub fn toggle_build_menu_input(state: GameState, tab_pressed: bool) -> (toggle: bool)
    ensures
        toggle == (tab_pressed && (state == GameState::Playing || state == GameState::Paused)),
{
    tab_pressed && (state == GameState::Playing || state == GameState::Paused)
}

/// Toggle the build menu; opening it pauses the game, closing it resumes play.
/// Returns the game state to switch to.
pub fn toggle_build_menu(menu: &mut BuildMenuState) -> (next: GameState)
    ensures
        *old(menu) == BuildMenuState::Closed ==> *final(menu) == BuildMenuState::Open && next == GameState::Paused,
        *old(menu) == BuildMenuState::Open ==> *final(menu) == BuildMenuState::Closed && next == GameState::Playing,
{
    match *menu {
        BuildMenuState::Closed => {
            *menu = BuildMenuState::Open;
            GameState::Paused
        },
        BuildMenuState::Open => {
            *menu = BuildMenuState::Closed;
            GameState::Playing
        },
    }
}

} // verus!
