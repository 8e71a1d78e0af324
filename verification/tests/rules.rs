use rand::Rng;
use rand::SeedableRng;
use rand::rngs::StdRng;
use td::building::{
    BuildCatalog, BuildCategory, BuildDefinitionId, BuildStep, UpgradeDefinition, handle_item_selection,
    items_in_category, pay_for_catalog_item, tower_building_step, tower_kind_for_item,
};
use td::combat::{
    Enemy, EnemyKind, MoveTarget, PathFollower, PopupDirection, Village, apply_hit, award_kill,
    enemy_health_for_wave, next_popup_direction, popup_direction, silver_reward, spawn_follower,
};
use td::content::{
    MAX_ROCK_ATTEMPTS, RandomizationPolicy, RocksPass, chunk_resource_split, rocks_pass_should_run, draw_tree_wood, rocks_rule_seed, rocks_to_place,
    seed_mode, tree_wood_amount,
};
use td::controls::{
    BuildControls, BuildMenuState, DrawerChange, GameState, TowerBuildSelection,
    handle_drawer_sell_button, handle_game_input, handle_menu_input, manage_tower_selection_drawer,
    pause_toggle_input, toggle_build_menu, toggle_build_menu_input, tower_drawer_shortcuts,
};
use td::economy::{
    Harvestable, HarvestableKind, Player, TowerKind, can_afford, collect_harvest,
    missing_resources, pay_for_tower, refund_tower,
};
use td::grid::{ChunkCoord, adjacent_chunks, desired_chunks, initial_chunks};
use td::launch::{chars_of, determine_launch_seed, parse_seed_args, parse_u64};
use td::random::{
    ExitSide, choose_exit_side, exit_side_for_roll, generator_seed, pick_u32, seeded_chunk_resource_count,
};
use td::seeds::{derive_seed, generate_chunk_resource_count, hash_combine, road_seed};
use td::streaming::{ChunkConfig, ChunkShortcutKeys, ChunkTracker, chunk_config_shortcuts, plan_chunk_updates};
use td::text::{
    audio_candidates, decimal_string, item_cost_label, missing_resources_text, next_wave_label,
    upgrade_cost_label, wave_label,
};
use td::tunables::Tunables;
use td::upgrades::{
    TowerUpgradeBonuses, TowerUpgradeConfig, TowerUpgrades, handle_upgrade_selection, upgraded_damage,
};
use td::waves::{
    IntermissionDelay, WaveAction, WavePhase, WaveState, enemy_count_for_wave, minion_wave_plan,
};
use std::collections::HashSet;

fn c(x: i32, z: i32) -> ChunkCoord {
    ChunkCoord { x, z }
}

fn player(wood: u32, rock: u32, silver: u64, gold: u64) -> Player {
    Player { wood, rock, silver, gold }
}

#[test]
fn derive_seed_known_values() {
    assert_eq!(derive_seed(0, 0, 0), 0xcbfa53e6bc389816);
    assert_eq!(derive_seed(0xC0FFEE, 1, 2), 1039834701159323577);
}

#[test]
fn hash_combine_sign_extends_coordinates() {
    assert_eq!(hash_combine(0xC0FFEE, -1, 3), 11402616908683507171);
    assert_eq!(hash_combine(0xC0FFEE, -1, 3), derive_seed(0xC0FFEE, u64::MAX, 3));
    assert_eq!(hash_combine(7, 4, 9), derive_seed(7, 4, 9));
}

#[test]
fn chunk_resource_count_known_values_and_range() {
    assert_eq!(generate_chunk_resource_count(0xC0FFEE, 0, 0), 255);
    assert_eq!(generate_chunk_resource_count(0xC0FFEE, 5, -7), 256);
    assert_eq!(generate_chunk_resource_count(42, 1, 1), 255);
    for x in -5..5 {
        for z in -5..5 {
            let n = generate_chunk_resource_count(123, x, z);
            assert!((250..=275).contains(&n));
            assert_eq!(n, generate_chunk_resource_count(123, x, z));
        }
    }
}

#[test]
fn seeded_chunk_resource_count_is_reproducible() {
    for x in -3..3 {
        let a = seeded_chunk_resource_count(99, x, 2);
        let b = seeded_chunk_resource_count(99, x, 2);
        assert_eq!(a, b);
        assert!((250..=275).contains(&a));
    }
}

#[test]
fn seeded_chunk_resource_count_uses_the_generator() {
    let seed = hash_combine(5 ^ 0x1234_5678_9ABC_DEF0, 1, 2);
    let first: u32 = StdRng::seed_from_u64(seed).random();
    assert_eq!(seeded_chunk_resource_count(5, 1, 2), 250 + first % 26);
}

#[test]
fn exit_side_rolls() {
    assert_eq!(exit_side_for_roll(0), ExitSide::North);
    assert_eq!(exit_side_for_roll(1), ExitSide::East);
    assert_eq!(exit_side_for_roll(2), ExitSide::South);
    assert_eq!(exit_side_for_roll(3), ExitSide::West);
    let mut rng = StdRng::seed_from_u64(1);
    let a = choose_exit_side(&mut rng);
    let mut rng2 = StdRng::seed_from_u64(1);
    assert_eq!(a, choose_exit_side(&mut rng2));
}

#[test]
fn pick_u32_seeded_is_reproducible() {
    let mut a = StdRng::seed_from_u64(3);
    let mut b = StdRng::seed_from_u64(3);
    let mut t = rand::rng();
    assert_eq!(pick_u32(true, &mut a, &mut t), pick_u32(true, &mut b, &mut t));
}

#[test]
fn desired_chunks_square() {
    let d = desired_chunks(c(0, 0), 1);
    assert_eq!(d.len(), 9);
    assert_eq!(d[0], c(-1, -1));
    assert_eq!(d[1], c(0, -1));
    assert_eq!(d[8], c(1, 1));
    let d2 = desired_chunks(c(10, -4), 2);
    assert_eq!(d2.len(), 25);
    let set: HashSet<ChunkCoord> = d2.iter().copied().collect();
    assert_eq!(set.len(), 25);
    assert!(set.contains(&c(12, -2)));
    assert!(!set.contains(&c(13, -2)));
    assert!(desired_chunks(c(0, 0), -1).is_empty());
    assert_eq!(desired_chunks(c(3, 3), 0), vec![c(3, 3)]);
}

#[test]
fn adjacent_chunks_order() {
    let a = adjacent_chunks(c(0, 0));
    assert_eq!(
        a,
        vec![c(0, 1), c(0, -1), c(-1, 0), c(1, 0), c(-1, 1), c(1, 1), c(-1, -1), c(1, -1)]
    );
}

#[test]
fn initial_chunks_equal_radius_one_square() {
    let i: HashSet<ChunkCoord> = initial_chunks(c(4, 5)).into_iter().collect();
    let d: HashSet<ChunkCoord> = desired_chunks(c(4, 5), 1).into_iter().collect();
    assert_eq!(i, d);
    assert_eq!(initial_chunks(c(4, 5))[0], c(4, 5));
}

fn cfg(active: i32, hyst: i32, loads: usize, unloads: usize) -> ChunkConfig {
    ChunkConfig {
        active_radius: active,
        hysteresis: hyst,
        max_loads_per_frame: loads,
        max_unloads_per_frame: unloads,
    }
}

#[test]
fn streaming_plan_from_scratch() {
    let plan = plan_chunk_updates(&vec![], c(0, 0), &cfg(1, 1, 100, 100));
    assert!(plan.unload.is_empty());
    assert_eq!(plan.load, desired_chunks(c(0, 0), 1));
}

#[test]
fn streaming_plan_respects_caps_and_keep_radius() {
    let loaded = vec![c(0, 0), c(5, 5), c(1, 1), c(-7, 0), c(2, 2)];
    let plan = plan_chunk_updates(&loaded, c(0, 0), &cfg(1, 1, 2, 1));
    // keep radius 2: (5,5) and (-7,0) are outside; only one unload allowed.
    assert_eq!(plan.unload, vec![c(5, 5)]);
    assert_eq!(plan.load.len(), 2);
    for l in &plan.load {
        assert!(!loaded.contains(l));
        assert!(l.x.abs() <= 1 && l.z.abs() <= 1);
    }
    assert_eq!(plan.load, vec![c(-1, -1), c(0, -1)]);
}

#[test]
fn streaming_plan_adds_neighbours_at_radius_zero() {
    let plan = plan_chunk_updates(&vec![], c(0, 0), &cfg(0, 0, 100, 100));
    let set: HashSet<ChunkCoord> = plan.load.iter().copied().collect();
    assert_eq!(plan.load.len(), 9);
    assert_eq!(set, desired_chunks(c(0, 0), 1).into_iter().collect());
    assert_eq!(plan.load[0], c(0, 0));
}

#[test]
fn streaming_plan_completes_with_enough_capacity() {
    let loaded = vec![c(9, 9), c(0, 0)];
    let plan = plan_chunk_updates(&loaded, c(0, 0), &cfg(2, 1, 1000, 1000));
    let mut after: Vec<ChunkCoord> = loaded.iter().copied().filter(|x| !plan.unload.contains(x)).collect();
    after.extend(plan.load.iter().copied());
    let set: HashSet<ChunkCoord> = after.iter().copied().collect();
    assert_eq!(set.len(), after.len());
    assert_eq!(set, desired_chunks(c(0, 0), 2).into_iter().collect());
}

#[test]
fn chunk_shortcuts_clamp() {
    let mut k = ChunkShortcutKeys {
        radius_down: false,
        radius_up: true,
        hysteresis_down: true,
        hysteresis_up: false,
        loads_down: true,
        loads_up: false,
        unloads_down: false,
        unloads_up: true,
    };
    let mut conf = cfg(6, 0, 1, 16);
    chunk_config_shortcuts(&mut conf, k);
    assert_eq!(conf, cfg(6, 0, 1, 16));
    k.radius_up = false;
    k.radius_down = true;
    let mut conf2 = cfg(1, 3, 0, 3);
    chunk_config_shortcuts(&mut conf2, k);
    assert_eq!(conf2, cfg(1, 2, 1, 4));
}

#[test]
fn chunk_tracker_reports_changes() {
    let mut t = ChunkTracker::new();
    assert!(t.observe(c(0, 0)));
    assert!(!t.observe(c(0, 0)));
    assert!(t.observe(c(1, 0)));
}

fn args(v: &[&str]) -> Vec<String> {
    v.iter().map(|s| s.to_string()).collect()
}

#[test]
fn parse_u64_matches_std() {
    for s in ["0", "42", "+7", "18446744073709551615", "18446744073709551616", "", "+", "-1", "1a", " 1", "007"] {
        let mine = parse_u64(&chars_of(s));
        assert_eq!(mine, s.parse::<u64>().ok(), "input {:?}", s);
    }
}

#[test]
fn seed_arguments() {
    assert_eq!(parse_seed_args(&args(&["--seed=123"])), Some(123));
    assert_eq!(parse_seed_args(&args(&["--seed", "77"])), Some(77));
    assert_eq!(parse_seed_args(&args(&["--seed", "x", "5"])), None);
    assert_eq!(parse_seed_args(&args(&["--seed=x", "--seed", "9"])), Some(9));
    assert_eq!(parse_seed_args(&args(&["--fullscreen"])), None);
    assert_eq!(parse_seed_args(&args(&["--seed"])), None);
    assert_eq!(determine_launch_seed(&args(&["--seed=5"])), 5);
}

#[test]
fn seed_text_round_trip() {
    for n in [0u64, 9, 10, 12345, u64::MAX] {
        let text = decimal_string(n);
        assert_eq!(text, n.to_string());
        assert_eq!(parse_seed_args(&vec![format!("--seed={}", text)]), Some(n));
        assert_eq!(parse_seed_args(&vec!["--seed".to_string(), text]), Some(n));
    }
}

#[test]
fn tower_costs_and_affordability() {
    assert_eq!(TowerKind::Bow.cost(), (3, 1));
    assert_eq!(TowerKind::Crossbow.cost(), (10, 3));
    assert!(can_afford(&player(3, 1, 0, 0), TowerKind::Bow));
    assert!(!can_afford(&player(9, 3, 0, 0), TowerKind::Crossbow));
    assert_eq!(missing_resources(&player(9, 1, 0, 0), TowerKind::Crossbow), (1, 2));
    assert_eq!(missing_resources(&player(20, 5, 0, 0), TowerKind::Crossbow), (0, 0));
}

#[test]
fn build_then_sell_bow() {
    let mut p = player(10, 2, 0, 0);
    pay_for_tower(&mut p, TowerKind::Bow);
    assert_eq!((p.wood, p.rock), (7, 1));
    refund_tower(&mut p, TowerKind::Bow);
    assert_eq!((p.wood, p.rock), (8, 1));
    let mut q = player(1, 0, 4, 4);
    pay_for_tower(&mut q, TowerKind::Crossbow);
    assert_eq!(q, player(0, 0, 4, 4));
    let mut r = player(u32::MAX, u32::MAX, 0, 0);
    refund_tower(&mut r, TowerKind::Crossbow);
    assert_eq!((r.wood, r.rock), (u32::MAX, u32::MAX));
}

#[test]
fn harvest_yields() {
    let mut p = player(0, 0, 0, 0);
    assert_eq!(collect_harvest(&mut p, &Harvestable { kind: HarvestableKind::Wood, amount: 30 }), 2);
    assert_eq!(collect_harvest(&mut p, &Harvestable { kind: HarvestableKind::Rock, amount: 10 }), 1);
    assert_eq!(p, player(2, 1, 0, 0));
}

#[test]
fn kill_rewards() {
    assert_eq!(silver_reward(Some(EnemyKind::Minion)), 1);
    assert_eq!(silver_reward(Some(EnemyKind::Zombie)), 2);
    assert_eq!(silver_reward(Some(EnemyKind::Boss)), 5);
    assert_eq!(silver_reward(None), 1);
    let mut p = player(0, 0, u64::MAX - 1, 0);
    award_kill(&mut p, Some(EnemyKind::Boss), true);
    assert_eq!((p.silver, p.gold), (u64::MAX, 1));
}

#[test]
fn hits_and_village() {
    assert_eq!(apply_hit(30, 12), (18, false));
    assert_eq!(apply_hit(12, 12), (0, true));
    assert_eq!(apply_hit(5, 35), (0, true));
    let mut e = Enemy { health: 20, max_health: 20, damage: 3, kind: EnemyKind::Zombie };
    assert!(!e.take_damage(12));
    assert!(e.take_damage(12));
    assert_eq!(e.health, 0);
    let mut v = Village { health: 10, max_health: 200 };
    v.take_hit(4);
    assert_eq!(v.health, 6);
    v.take_hit(6);
    assert_eq!(v.health, 200);
}

#[test]
fn enemy_health_tiers() {
    assert_eq!(enemy_health_for_wave(60, 15, 0), 60);
    assert_eq!(enemy_health_for_wave(60, 15, 4), 60);
    assert_eq!(enemy_health_for_wave(60, 15, 5), 75);
    assert_eq!(enemy_health_for_wave(60, 15, 12), 90);
}

#[test]
fn popup_directions() {
    assert_eq!(popup_direction(0), PopupDirection::Right);
    assert_eq!(popup_direction(5), PopupDirection::Left);
    assert_eq!(popup_direction(6), PopupDirection::Down);
    assert_eq!(popup_direction(255), PopupDirection::Up);
    assert_eq!(next_popup_direction(PopupDirection::Up), PopupDirection::Right);
}

#[test]
fn path_following() {
    let mut f = spawn_follower(Some(2));
    assert_eq!(f, PathFollower { road_index: 2, next_index: 1 });
    assert_eq!(f.follow_step(3, false), MoveTarget::Waypoint(1));
    assert_eq!(f.follow_step(3, true), MoveTarget::Waypoint(1));
    assert_eq!(f.follow_step(3, true), MoveTarget::Waypoint(2));
    assert_eq!(f.follow_step(3, true), MoveTarget::Village);
    assert_eq!(f.next_index, 3);
    assert_eq!(spawn_follower(None), PathFollower { road_index: 0, next_index: 0 });
}

#[test]
fn waves_progress_and_spawn_in_order() {
    let mut w = WaveState::new();
    assert_eq!(w.upcoming_wave_number(), 1);
    assert_eq!(w.intermission_delay(), IntermissionDelay::Initial);
    assert_eq!(w.progression_step(false, true), WaveAction::Wait);
    assert_eq!(w.progression_step(true, true), WaveAction::StartWave { number: 1, boss: false });
    let plan = vec![EnemyKind::Zombie, EnemyKind::Minion];
    w.start_next_wave_from_plan(&plan);
    assert_eq!(w.phase, WavePhase::Spawning);
    assert_eq!(w.enemies_to_spawn, 2);
    assert_eq!(w.upcoming_wave_number(), 1);
    assert_eq!(w.spawn_step(false), None);
    assert_eq!(w.spawn_step(true), Some(EnemyKind::Zombie));
    assert_eq!(w.progression_step(false, true), WaveAction::Wait);
    assert_eq!(w.spawn_step(true), Some(EnemyKind::Minion));
    assert_eq!(w.spawn_step(true), None);
    assert_eq!(w.enemies_spawned, 2);
    assert_eq!(w.progression_step(false, false), WaveAction::Wait);
    assert_eq!(w.progression_step(false, true), WaveAction::StartIntermission);
    w.start_intermission();
    assert_eq!(w.intermission_delay(), IntermissionDelay::BetweenWaves);
    assert_eq!(w.upcoming_wave_number(), 2);
}

#[test]
fn boss_every_tenth_wave() {
    let mut w = WaveState::new();
    for n in 1..=20u32 {
        match w.progression_step(true, true) {
            WaveAction::StartWave { number, boss } => {
                assert_eq!(number, n);
                assert_eq!(boss, n % 10 == 0);
            }
            other => panic!("unexpected {:?}", other),
        }
        w.start_next_wave_from_plan(&vec![]);
        w.start_intermission();
    }
}

#[test]
fn wave_enemy_count_grows() {
    let mut w = WaveState::new();
    assert_eq!(w.wave_enemy_count(10, 2), 10);
    w.start_next_wave_from_plan(&vec![]);
    assert_eq!(w.wave_enemy_count(10, 2), 10);
    w.start_next_wave_from_plan(&vec![]);
    assert_eq!(w.wave_enemy_count(10, 2), 12);
}

#[test]
fn menu_and_pause() {
    assert_eq!(handle_menu_input(true), Some(GameState::Playing));
    assert_eq!(handle_menu_input(false), None);
    assert_eq!(pause_toggle_input(GameState::Playing, true), Some(GameState::Paused));
    assert_eq!(pause_toggle_input(GameState::Paused, true), Some(GameState::Playing));
    assert_eq!(pause_toggle_input(GameState::Menu, true), None);
    assert_eq!(pause_toggle_input(GameState::Playing, false), None);
    assert_eq!(GameState::default(), GameState::Menu);
}

#[test]
fn build_mode_input() {
    let mut ctrl = BuildControls { building_active: false, selling_active: true };
    let mut sel = TowerBuildSelection::default();
    handle_game_input(&mut ctrl, &mut sel, false, true);
    assert!(ctrl.building_active);
    sel.choice = Some(TowerKind::Bow);
    handle_game_input(&mut ctrl, &mut sel, true, true);
    assert_eq!(ctrl, BuildControls { building_active: false, selling_active: false });
    assert_eq!(sel.choice, None);
    let mut idle = TowerBuildSelection::default();
    let mut c2 = BuildControls { building_active: false, selling_active: false };
    handle_game_input(&mut c2, &mut idle, true, true);
    assert!(c2.building_active);
}

#[test]
fn drawer_lifecycle() {
    let ctrl = BuildControls { building_active: true, selling_active: false };
    let mut sel = TowerBuildSelection::default();
    let p = Player { wood: 10, rock: 1, silver: 0, gold: 0 };
    assert_eq!(
        manage_tower_selection_drawer(&ctrl, &mut sel, Some(p)),
        DrawerChange::Open { bow_enabled: true, crossbow_enabled: false }
    );
    assert!(sel.drawer_open);
    assert_eq!(manage_tower_selection_drawer(&ctrl, &mut sel, Some(p)), DrawerChange::Keep);
    let mut fresh = TowerBuildSelection::default();
    assert_eq!(
        manage_tower_selection_drawer(&ctrl, &mut fresh, None),
        DrawerChange::Open { bow_enabled: false, crossbow_enabled: false }
    );
    let rich = Player { wood: 10, rock: 3, silver: 0, gold: 0 };
    let mut fresh2 = TowerBuildSelection::default();
    assert_eq!(
        manage_tower_selection_drawer(&ctrl, &mut fresh2, Some(rich)),
        DrawerChange::Open { bow_enabled: true, crossbow_enabled: true }
    );
    let idle = BuildControls { building_active: false, selling_active: false };
    assert_eq!(manage_tower_selection_drawer(&idle, &mut fresh2, Some(rich)), DrawerChange::Close);
    let mut c2 = ctrl;
    assert!(tower_drawer_shortcuts(&mut c2, &mut sel, false, true, false));
    assert_eq!(sel.choice, Some(TowerKind::Crossbow));
    assert!(!sel.drawer_open);
    let mut c3 = ctrl;
    handle_drawer_sell_button(&mut c3, &mut sel);
    assert_eq!(c3, BuildControls { building_active: false, selling_active: true });
}

#[test]
fn build_menu_toggling() {
    assert!(toggle_build_menu_input(GameState::Paused, true));
    assert!(!toggle_build_menu_input(GameState::Menu, true));
    let mut m = BuildMenuState::default();
    assert_eq!(toggle_build_menu(&mut m), GameState::Paused);
    assert_eq!(m, BuildMenuState::Open);
    assert_eq!(toggle_build_menu(&mut m), GameState::Playing);
    assert_eq!(m, BuildMenuState::Closed);
}

#[test]
fn placing_towers() {
    let ctrl = BuildControls { building_active: true, selling_active: false };
    let mut sel = TowerBuildSelection { choice: Some(TowerKind::Crossbow), hovered_choice: None, drawer_open: false };
    let mut p = player(10, 3, 0, 0);
    assert_eq!(
        tower_building_step(&ctrl, &mut sel, true, true, false, &mut p, true, true),
        BuildStep::Rejected { kind: TowerKind::Crossbow }
    );
    assert_eq!(
        tower_building_step(&ctrl, &mut sel, true, true, true, &mut p, true, false),
        BuildStep::Preview { kind: TowerKind::Crossbow, valid: true }
    );
    assert_eq!(
        tower_building_step(&ctrl, &mut sel, true, true, true, &mut p, true, true),
        BuildStep::Placed { kind: TowerKind::Crossbow }
    );
    assert_eq!(p, player(0, 0, 0, 0));
    assert_eq!(sel.choice, None);
    assert_eq!(
        tower_building_step(&ctrl, &mut sel, true, true, true, &mut p, true, true),
        BuildStep::ClearGhost
    );
    let mut sel2 = TowerBuildSelection { choice: Some(TowerKind::Bow), hovered_choice: None, drawer_open: false };
    assert_eq!(
        tower_building_step(&ctrl, &mut sel2, false, true, true, &mut p, true, true),
        BuildStep::KeepGhost
    );
}

#[test]
fn catalog_and_item_selection() {
    let mut cat = BuildCatalog::new();
    cat.ensure_defaults();
    assert_eq!(cat.items.len(), 2);
    assert_eq!(cat.items[1].id.0, "crossbow_tower");
    assert_eq!(cat.items[1].cost, 20);
    assert_eq!(cat.upgrades[0].gold_cost, 5);
    assert_eq!(cat.find_upgrade(&BuildDefinitionId("crossbow_damage_upgrade".to_string())), Some(1));
    assert_eq!(cat.find_upgrade(&BuildDefinitionId("nope".to_string())), None);
    assert_eq!(tower_kind_for_item(&BuildDefinitionId("bow_tower".to_string())), Some(TowerKind::Bow));
    assert_eq!(tower_kind_for_item(&BuildDefinitionId("wall".to_string())), None);
    let mut ctrl = BuildControls { building_active: false, selling_active: false };
    let mut sel = TowerBuildSelection::default();
    let mut menu = BuildMenuState::Open;
    assert_eq!(handle_item_selection(&BuildDefinitionId("crossbow_tower".to_string()), &mut ctrl, &mut sel, &mut menu), GameState::Playing);
    assert_eq!(sel.choice, Some(TowerKind::Crossbow));
    assert!(ctrl.building_active);
    assert_eq!(menu, BuildMenuState::Closed);
}

#[test]
fn buying_upgrades() {
    let mut cat = BuildCatalog::new();
    cat.ensure_defaults();
    let config = TowerUpgradeConfig::new();
    let mut ups = TowerUpgrades::default();
    let mut p = player(0, 0, 25, 12);
    let id = BuildDefinitionId("bow_damage_upgrade".to_string());
    assert_eq!(handle_upgrade_selection(&cat, &id, &mut p, &mut ups, &config), Some((TowerKind::Bow, 17)));
    assert_eq!(handle_upgrade_selection(&cat, &id, &mut p, &mut ups, &config), Some((TowerKind::Bow, 22)));
    assert_eq!((p.silver, p.gold), (5, 2));
    assert_eq!(handle_upgrade_selection(&cat, &id, &mut p, &mut ups, &config), None);
    assert_eq!(ups.get_level(TowerKind::Bow), 2);
    assert_eq!(ups.get_level(TowerKind::Crossbow), 0);
    assert_eq!(config.calculate_damage_bonus(TowerKind::Crossbow, 3), 30);
}

#[test]
fn chunk_content_rules() {
    assert_eq!(chunk_resource_split(255), (170, 85));
    assert_eq!(tree_wood_amount(20, 60, 0), 20);
    assert_eq!(tree_wood_amount(20, 60, 40), 60);
    assert_eq!(tree_wood_amount(20, 60, 41), 20);
    assert_eq!(tree_wood_amount(7, 7, 12345), 7);
    let mut s = StdRng::seed_from_u64(8);
    let mut t = rand::rng();
    let w = draw_tree_wood(true, &mut s, &mut t, 20, 60);
    assert!((20..=60).contains(&w));
    assert_eq!(rocks_to_place(8, 3), 5);
    assert_eq!(rocks_to_place(8, 9), 0);
    assert_eq!(rocks_rule_seed(0), 0xA11C_E55E_D00D ^ 0xC0BB_BA5E_5EED);
    assert_eq!(seed_mode(true, 4), Some(4));
    assert_eq!(seed_mode(false, 4), None);
    assert!(RandomizationPolicy::default().chunk_content_seeded);
}

#[test]
fn texts() {
    assert_eq!(missing_resources_text(&player(9, 1, 0, 0), TowerKind::Crossbow), "(need +1 wood, +2 rock)");
    assert_eq!(missing_resources_text(&player(0, 5, 0, 0), TowerKind::Bow), "(need +3 wood)");
    assert_eq!(missing_resources_text(&player(3, 0, 0, 0), TowerKind::Bow), "(need +1 rock)");
    assert_eq!(missing_resources_text(&player(3, 1, 0, 0), TowerKind::Bow), "");
    assert_eq!(wave_label(12), "Wave: 12");
    assert_eq!(next_wave_label(3), "Next wave in: 3s");
    assert_eq!(
        audio_candidates("wave_start"),
        vec![
            "audio/sfx/wave_start.wav".to_string(),
            "audio/sfx/wave_start.flac".to_string(),
            "audio/sfx/wave_start.mp3".to_string(),
            "audio/sfx/wave_start.ogg".to_string(),
        ]
    );
}

#[test]
fn tunables_defaults() {
    let t = Tunables::default();
    assert_eq!(t.world_seed, 0xC0FFEE);
    let conf = t.chunk_config();
    assert_eq!(conf, cfg(2, 1, 2, 4));
    assert_eq!(t.village_health, 200);
}

#[test]
fn derive_seed_separates_each_argument() {
    let mut seen = HashSet::new();
    for a in 0..64u64 {
        assert!(seen.insert(derive_seed(7, a, 3)));
    }
    let mut seen_b = HashSet::new();
    for b in 0..64u64 {
        assert!(seen_b.insert(derive_seed(7, 3, b)));
    }
    let mut seen_base = HashSet::new();
    for base in 0..64u64 {
        assert!(seen_base.insert(derive_seed(base, 1, 2)));
    }
}

#[test]
fn hash_combine_separates_rows_and_columns() {
    let mut row = HashSet::new();
    let mut col = HashSet::new();
    for v in -32..32i32 {
        assert!(row.insert(hash_combine(42, v, 5)));
        assert!(col.insert(hash_combine(42, 5, v)));
    }
}

#[test]
fn road_seed_value() {
    assert_eq!(road_seed(0), 0xD00Du64.wrapping_mul(0x9E37_79B9_7F4A_7C15));
    assert_eq!(road_seed(0), 0x1bb7_e5d7_fb99_5d11);
    assert_eq!(road_seed(0x1bb7_e5d7_fb99_5d11), 0);
}

#[test]
fn build_menu_cards() {
    assert_eq!(item_cost_label(15), "Cost: 15");
    assert_eq!(upgrade_cost_label(5, 10), "5g 10s");
    let mut cat = BuildCatalog::new();
    cat.ensure_defaults();
    assert_eq!(items_in_category(&cat, BuildCategory::Towers), vec![0, 1]);
    assert_eq!(items_in_category(&cat, BuildCategory::Upgrades), Vec::<usize>::new());
}

#[test]
fn rocks_pass_stops_at_shortfall_or_budget() {
    assert!(rocks_pass_should_run(true, false, 2));
    assert!(!rocks_pass_should_run(true, true, 5));
    assert!(!rocks_pass_should_run(false, false, 5));
    assert!(!rocks_pass_should_run(true, false, 1));
    let mut pass = RocksPass::new(8, 3);
    assert_eq!(pass, RocksPass { to_place: 5, attempts: 0, placed: 0 });
    let mut n = 0;
    while pass.wants_attempt() {
        pass.record_attempt(n % 2 == 0);
        n += 1;
    }
    assert_eq!(pass, RocksPass { to_place: 0, attempts: 9, placed: 5 });
    let mut never = RocksPass::new(8, 0);
    while never.wants_attempt() {
        never.record_attempt(false);
    }
    assert_eq!(never, RocksPass { to_place: 8, attempts: MAX_ROCK_ATTEMPTS, placed: 0 });
    assert!(!RocksPass::new(8, 9).wants_attempt());
}

#[test]
fn upgrade_buys_first_matching_entry() {
    let mut cat = BuildCatalog::new();
    let id = || BuildDefinitionId("dup".to_string());
    cat.upgrades.push(UpgradeDefinition {
        id: id(), display_name: "A".to_string(), gold_cost: 100, silver_cost: 0, tower_kind: TowerKind::Bow,
    });
    cat.upgrades.push(UpgradeDefinition {
        id: id(), display_name: "B".to_string(), gold_cost: 1, silver_cost: 0, tower_kind: TowerKind::Crossbow,
    });
    let config = TowerUpgradeConfig::new();
    let mut ups = TowerUpgrades::default();
    let mut p = player(0, 0, 0, 5);
    assert_eq!(handle_upgrade_selection(&cat, &id(), &mut p, &mut ups, &config), None);
    assert_eq!(p.gold, 5);
    assert_eq!(ups.get_level(TowerKind::Crossbow), 0);
    let mut rich = player(0, 0, 0, 100);
    assert_eq!(handle_upgrade_selection(&cat, &id(), &mut rich, &mut ups, &config), Some((TowerKind::Bow, 17)));
    assert_eq!(rich.gold, 0);
}

#[test]
fn wave_progression_while_spawning_at_the_last_wave() {
    let mut w = WaveState::new();
    w.current_wave = u32::MAX - 1;
    w.start_next_wave_from_plan(&vec![EnemyKind::Minion]);
    assert_eq!(w.current_wave, u32::MAX);
    assert_eq!(w.upcoming_wave_number(), u32::MAX);
    assert_eq!(w.progression_step(false, true), WaveAction::Wait);
    assert_eq!(w.spawn_step(true), Some(EnemyKind::Minion));
    assert_eq!(w.progression_step(false, true), WaveAction::StartIntermission);
}

#[test]
fn shown_wave_number_is_stable_across_a_wave_start() {
    let mut w = WaveState::new();
    for _ in 0..3 {
        let shown = w.upcoming_wave_number();
        w.start_next_wave_from_plan(&vec![EnemyKind::Zombie]);
        assert_eq!(w.upcoming_wave_number(), shown);
        w.start_intermission();
        assert_eq!(w.upcoming_wave_number(), shown + 1);
    }
}

#[test]
fn rocks_pass_owes_nothing_beyond_the_signed_range() {
    let huge = RocksPass::new(u32::MAX, 0);
    assert_eq!(huge, RocksPass { to_place: 0, attempts: 0, placed: 0 });
    assert!(!huge.wants_attempt());
    let edge = RocksPass::new(0x8000_0000, 1);
    assert_eq!(edge.to_place, 0x7FFF_FFFF);
    assert!(edge.wants_attempt());
    assert_eq!(RocksPass::new(0x8000_0000, 0).to_place, 0);
}

#[test]
fn minion_waves() {
    assert_eq!(enemy_count_for_wave(1, 5, 2), 5);
    assert_eq!(enemy_count_for_wave(0, 5, 2), 5);
    assert_eq!(enemy_count_for_wave(4, 5, 2), 11);
    assert_eq!(minion_wave_plan(2, false), vec![EnemyKind::Minion, EnemyKind::Minion]);
    assert_eq!(minion_wave_plan(1, true), vec![EnemyKind::Minion, EnemyKind::Boss]);
    assert_eq!(minion_wave_plan(0, false), Vec::<EnemyKind>::new());
}

#[test]
fn placing_catalog_items_pays_in_wood() {
    let mut cat = BuildCatalog::new();
    cat.ensure_defaults();
    let bow = BuildDefinitionId("bow_tower".to_string());
    let cost = cat.items[cat.find_item(&bow).unwrap()].cost;
    let mut p = player(cost, 0, 0, 0);
    assert!(pay_for_catalog_item(&cat, &bow, &mut p, true));
    assert_eq!(p.wood, 0);
    assert_eq!(pay_for_catalog_item(&cat, &bow, &mut p, true), cost == 0);
    let mut q = player(0, 0, 0, 0);
    assert!(pay_for_catalog_item(&cat, &bow, &mut q, false));
    assert!(pay_for_catalog_item(&cat, &BuildDefinitionId("nothing".to_string()), &mut q, true));
    assert_eq!(q, player(0, 0, 0, 0));
}

#[test]
fn damage_bonus_is_the_single_precision_product() {
    let samples: [(u32, u32); 10] = [
        (5, 3),
        (16_777_217, 1),
        (16_777_219, 1),
        (1, 16_777_217),
        (4_097, 4_097),
        (123_456_789, 7),
        (u32::MAX, 1),
        (u32::MAX, u32::MAX),
        (3, 0),
        (0, u32::MAX),
    ];
    for (per, level) in samples {
        let expected = (per as f32 * level as f32) as u128;
        let got = TowerUpgradeBonuses::new().with_damage(per).damage_bonus(level);
        assert_eq!(got, expected, "per {} level {}", per, level);
    }
    assert_eq!(TowerUpgradeBonuses::new().with_damage(16_777_217).damage_bonus(1), 16_777_216);
    assert_eq!(upgraded_damage(TowerKind::Crossbow, 30), 65);
}

#[test]
fn generator_seeds() {
    assert_eq!(generator_seed(true, 99), 99);
    let _fresh = generator_seed(false, 99);
}

#[test]
fn tree_wood_uses_the_chosen_generator() {
    let mut s = StdRng::seed_from_u64(5);
    let mut reference = StdRng::seed_from_u64(5);
    let mut t = rand::rng();
    let _ = draw_tree_wood(false, &mut s, &mut t, 20, 60);
    assert_eq!(s.random::<u64>(), reference.random::<u64>());
    let mut a = StdRng::seed_from_u64(6);
    let mut b = StdRng::seed_from_u64(6);
    let wa = draw_tree_wood(true, &mut a, &mut t, 20, 60);
    let wb = draw_tree_wood(true, &mut b, &mut t, 20, 60);
    assert_eq!(wa, wb);
}
