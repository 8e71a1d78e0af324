//! Wave progression: intermissions, spawning queues, wave numbering.
use vstd::prelude::*;
use std::collections::VecDeque;
use crate::combat::EnemyKind;

verus! {

/// Wave phase used by wave progression systems.
#[derive(Debug, Clone, Copy, PartialEq, Eq, Structural)]
pub enum WavePhase {
    Intermission,
    Spawning,
}

/// Which configured delay the current intermission lasts.
#[derive(Debug, Clone, Copy, PartialEq, Eq, Structural)]
pub enum IntermissionDelay {
    /// The delay before the very first wave.
    Initial,
    /// The pause between two waves.
    BetweenWaves,
}

/// What wave progression does this frame.
#[derive(Debug, Clone, Copy, PartialEq, Eq, Structural)]
pub enum WaveAction {
    /// Nothing changes.
    Wait,
    /// A new wave begins; `boss` marks every tenth wave.
    StartWave { number: u32, boss: bool },
    /// The wave is over: an intermission begins.
    StartIntermission,
}

/// Wave counters and the queue of enemies still to spawn this wave.
pub struct WaveState {
    pub current_wave: u32,
    pub phase: WavePhase,
    pub enemies_to_spawn: u32,
    pub enemies_spawned: u32,
    pub spawn_queue: VecDeque<EnemyKind>,
}

/// The wave number shown for a phase and wave counter: the next wave during an
/// intermission, the current one (at least 1) while spawning.
pub open spec fn spec_upcoming_wave_number(phase: WavePhase, current_wave: u32) -> int {
    match phase {
        WavePhase::Intermission => current_wave + 1,
        WavePhase::Spawning => if current_wave >= 1 { current_wave as int } else { 1 },
    }
}

/// Number of enemies of wave `wave`: the base count plus the increment for every wave
/// after the first.
pub open spec fn spec_wave_enemy_count(wave: u32, base: u32, increment: u32) -> int {
    base + (if wave >= 1 { wave - 1 } else { 0 }) * increment
}

/// Number of enemies of wave `wave`.
pub fn enemy_count_for_wave(wave: u32, base: u32, increment: u32) -> (n: u32)
    requires
        spec_wave_enemy_count(wave, base, increment) <= u32::MAX,
    ensures
        n == spec_wave_enemy_count(wave, base, increment),
{
    let later = wave.saturating_sub(1);
    proof {
        assert(later * increment >= 0) by (nonlinear_arith)
            requires later >= 0, increment >= 0;
    }
    base + later * increment
}

/// A plain wave: `count` minions, closed by one boss when `boss`.
pub fn minion_wave_plan(count: u32, boss: bool) -> (plan: Vec<EnemyKind>)
    ensures
        plan@.len() == count + (if boss { 1int } else { 0int }),
        forall|i: int| 0 <= i < count ==> plan@[i] == EnemyKind::Minion,
        boss ==> plan@[count as int] == EnemyKind::Boss,
{
    let mut plan: Vec<EnemyKind> = Vec::new();
    let mut i: u32 = 0;
    while i < count
        invariant
            i <= count,
            plan@.len() == i,
            forall|k: int| 0 <= k < i ==> plan@[k] == EnemyKind::Minion,
        decreases count - i,
    {
        plan.push(EnemyKind::Minion);
        i = i + 1;
    }
    if boss {
        plan.push(EnemyKind::Boss);
    }
    plan
}

impl WaveState {
    /// Every enemy of the wave is either spawned or still queued: the count of the
    /// wave is that total, kept in 32 bits, and never below the number spawned.
    pub open spec fn wf(&self) -> bool {
        &&& self.enemies_spawned <= self.enemies_to_spawn
        &&& self.enemies_to_spawn == (self.enemies_spawned + self.spawn_queue@.len()) as u32
    }

    /// Before the first wave: wave 0, in intermission, nothing to spawn.
    pub fn new() -> (s: Self)
        ensures
            s.wf(),
            s.current_wave == 0,
            s.phase == WavePhase::Intermission,
            s.enemies_to_spawn == 0,
            s.enemies_spawned == 0,
            s.spawn_queue@.len() == 0,
    {
        WaveState {
            current_wave: 0,
            phase: WavePhase::Intermission,
            enemies_to_spawn: 0,
            enemies_spawned: 0,
            spawn_queue: VecDeque::new(),
        }
    }

    /// Begin the next wave with the given enemies, spawned in order.
    pub fn start_next_wave_from_plan(&mut self, plan: &Vec<EnemyKind>)
        requires
            old(self).current_wave < u32::MAX,
        ensures
            final(self).wf(),
            final(self).current_wave == old(self).current_wave + 1,
            final(self).phase == WavePhase::Spawning,
            final(self).spawn_queue@ == plan@,
            final(self).enemies_to_spawn == plan@.len() as u32,
            final(self).enemies_spawned == 0,
    {
        let next = self.current_wave + 1;
        self.spawn_queue.clear();
        let mut i: usize = 0;
        while i < plan.len()
            invariant
                0 <= i <= plan@.len(),
                self.spawn_queue@ == plan@.take(i as int),
            decreases plan@.len() - i,
        {
            self.spawn_queue.push_back(plan[i]);
            proof {
                assert(plan@.take(i as int + 1) =~= plan@.take(i as int).push(plan@[i as int]));
            }
            i = i + 1;
        }
        proof {
            assert(plan@.take(plan@.len() as int) =~= plan@);
        }
        self.current_wave = next;
        self.phase = WavePhase::Spawning;
        self.enemies_to_spawn = self.spawn_queue.len() as u32;
        self.enemies_spawned = 0;
    }

    /// End the wave: an intermission begins.
    pub fn start_intermission(&mut self)
        ensures
            *final(self) == (WaveState { phase: WavePhase::Intermission, ..*old(self) }),
    {
        self.phase = WavePhase::Intermission;
    }

    /// The wave number to show: the next one during an intermission, the current one
    /// (at least 1) while spawning.
    pub fn upcoming_wave_number(&self) -> (n: u32)
        requires
            self.phase == WavePhase::Intermission ==> self.current_wave < u32::MAX,
        ensures
            n == spec_upcoming_wave_number(self.phase, self.current_wave),
    {
        match self.phase {
            WavePhase::Intermission => self.current_wave + 1,
            WavePhase::Spawning => if self.current_wave >= 1 { self.current_wave } else { 1 },
        }
    }

    /// Number of enemies of the current wave: the base count plus the increment for
    /// every wave after the first.
    pub fn wave_enemy_count(&self, base: u32, increment: u32) -> (n: u32)
        requires
            base + (if self.current_wave >= 1 { self.current_wave - 1 } else { 0 }) * increment <= u32::MAX,
        ensures
            n == base + (if self.current_wave >= 1 { self.current_wave - 1 } else { 0 }) * increment,
    {
        enemy_count_for_wave(self.current_wave, base, increment)
    }

    /// Which delay the current intermission lasts: the initial one before wave 1.
    pub fn intermission_delay(&self) -> (d: IntermissionDelay)
        ensures
            d == (if self.current_wave == 0 { IntermissionDelay::Initial } else { IntermissionDelay::BetweenWaves }),
    {
        if self.current_wave == 0 {
            IntermissionDelay::Initial
        } else {
            IntermissionDelay::BetweenWaves
        }
    }

    /// Decide this frame's progression: when the intermission timer finishes the next
    /// wave starts (a boss wave every tenth); once every enemy of a wave has been spawned
    /// and none is alive, an intermission starts.
    pub fn progression_step(&self, intermission_finished: bool, no_enemies_alive: bool) -> (a: WaveAction)
        requires
            self.phase == WavePhase::Intermission ==> self.current_wave < u32::MAX,
        ensures
            self.phase == WavePhase::Intermission && intermission_finished ==> a == (WaveAction::StartWave {
                number: (self.current_wave + 1) as u32,
                boss: (self.current_wave + 1) % 10 == 0,
            }),
            self.phase == WavePhase::Intermission && !intermission_finished ==> a == WaveAction::Wait,
            self.phase == WavePhase::Spawning ==> a == (if self.enemies_spawned >= self.enemies_to_spawn && no_enemies_alive {
                WaveAction::StartIntermission
            } else {
                WaveAction::Wait
            }),
    {
        match self.phase {
            WavePhase::Intermission => {
                if intermission_finished {
                    let next = self.current_wave + 1;
                    WaveAction::StartWave { number: next, boss: next % 10 == 0 }
                } else {
                    WaveAction::Wait
                }
            },
            WavePhase::Spawning => {
                if self.enemies_spawned >= self.enemies_to_spawn && no_enemies_alive {
                    WaveAction::StartIntermission
                } else {
                    WaveAction::Wait
                }
            },
        }
    }

    /// Spawn the next enemy of the wave when the spawn timer fires: the front of the
    /// queue leaves it and is counted as spawned.
    pub fn spawn_step(&mut self, spawn_timer_finished: bool) -> (spawned: Option<EnemyKind>)
        requires
            old(self).wf(),
        ensures
            final(self).wf(),
            final(self).current_wave == old(self).current_wave,
            final(self).phase == old(self).phase,
            final(self).enemies_to_spawn == old(self).enemies_to_spawn,
            (old(self).phase == WavePhase::Spawning && old(self).enemies_spawned < old(self).enemies_to_spawn
                && spawn_timer_finished) ==> {
                &&& old(self).spawn_queue@.len() > 0
                &&& spawned == Some(old(self).spawn_queue@[0])
                &&& final(self).spawn_queue@ == old(self).spawn_queue@.drop_first()
                &&& final(self).enemies_spawned == old(self).enemies_spawned + 1
            },
            !(old(self).phase == WavePhase::Spawning && old(self).enemies_spawned < old(self).enemies_to_spawn
                && spawn_timer_finished) ==> {
                &&& spawned is None
                &&& final(self).spawn_queue@ == old(self).spawn_queue@
                &&& final(self).enemies_spawned == old(self).enemies_spawned
            },
    {
        if self.phase != WavePhase::Spawning {
            return None;
        }
        if self.enemies_spawned >= self.enemies_to_spawn {
            return None;
        }
        if !spawn_timer_finished {
            return None;
        }
        let next = self.spawn_queue.pop_front();
        proof {
            assert(old(self).spawn_queue@.subrange(1, old(self).spawn_queue@.len() as int)
                =~= old(self).spawn_queue@.drop_first());
        }
        match next {
            Some(kind) => {
                self.enemies_spawned = self.enemies_spawned + 1;
                Some(kind)
            },
            None => None,
        }
    }
}

/// A wave spawns exactly the enemies of its plan, in the plan's order: after the
/// wave starts, the `k`-th enemy spawned is the `k`-th of the plan, and the wave
/// counts as fully spawned exactly when the queue is empty.
pub proof fn law_spawn_order_follows_plan(s: WaveState, plan: Seq<EnemyKind>)
    requires
        s.wf(),
        s.spawn_queue@ == plan.skip(s.enemies_spawned as int),
        s.enemies_spawned <= plan.len(),
        s.enemies_to_spawn == plan.len(),
    ensures
        s.enemies_spawned < s.enemies_to_spawn ==> s.spawn_queue@[0] == plan[s.enemies_spawned as int],
        s.spawn_queue@.drop_first() == plan.skip(s.enemies_spawned + 1) || s.spawn_queue@.len() == 0,
        (s.enemies_spawned >= s.enemies_to_spawn) == (s.spawn_queue@.len() == 0),
{
    if s.spawn_queue@.len() > 0 {
        assert(s.spawn_queue@.drop_first() =~= plan.skip(s.enemies_spawned + 1));
    }
}

/// The wave number shown does not jump when a wave starts, and moves on by one when
/// the following intermission begins: starting a wave turns an intermission after
/// wave `w` into spawning wave `w + 1`, and ending it turns that into an intermission
/// after wave `w + 1`.
pub proof fn law_upcoming_wave_number_stable(w: u32)
    requires
        w < u32::MAX,
    ensures
        spec_upcoming_wave_number(WavePhase::Spawning, (w + 1) as u32)
            == spec_upcoming_wave_number(WavePhase::Intermission, w),
        spec_upcoming_wave_number(WavePhase::Intermission, (w + 1) as u32)
            == spec_upcoming_wave_number(WavePhase::Intermission, w) + 1,
{
}

} // verus!
