//! Which chunks to load and unload when the player changes chunk.
use vstd::prelude::*;
use crate::grid::{ChunkCoord, in_square, square_fits, square_cell, has_neighbours, spec_adjacent, desired_chunks, adjacent_chunks};

verus! {

/// Streaming limits: radius of chunks kept loaded around the player, extra
/// radius before unloading, and per-frame load and unload caps.
#[derive(Debug, Clone, Copy, PartialEq, Eq, Structural)]
pub struct ChunkConfig {
    pub active_radius: i32,
    pub hysteresis: i32,
    pub max_loads_per_frame: usize,
    pub max_unloads_per_frame: usize,
}

/// Chunks to drop and chunks to create for one change of the player's chunk.
pub struct ChunkUpdatePlan {
    pub unload: Vec<ChunkCoord>,
    pub load: Vec<ChunkCoord>,
}

/// `c` is within the keep radius (active radius plus hysteresis) around `center`.
pub open spec fn keeps(center: ChunkCoord, cfg: ChunkConfig, c: ChunkCoord) -> bool {
    let kr = cfg.active_radius + cfg.hysteresis;
    kr >= 0 && in_square(center, kr, c)
}

/// The list `desired_chunks(center, r)` returns.
pub open spec fn spec_desired_seq(center: ChunkCoord, r: int) -> Seq<ChunkCoord> {
    if r < 0 {
        Seq::empty()
    } else {
        Seq::new(((2 * r + 1) * (2 * r + 1)) as nat, |i: int| square_cell(center, r, i))
    }
}

/// Chunks wanted around `center`: the active square, then the neighbours outside it.
pub open spec fn spec_wanted(center: ChunkCoord, r: int) -> Seq<ChunkCoord> {
    spec_desired_seq(center, r) + spec_adjacent(center).filter(
        |c: ChunkCoord| !(r >= 0 && in_square(center, r, c)),
    )
}

/// The smaller of two integers.
pub open spec fn min_int(a: int, b: int) -> int {
    if a <= b { a } else { b }
}

/// Loaded chunks outside the keep radius, in the order given, at most the unload cap.
pub open spec fn spec_unload(loaded: Seq<ChunkCoord>, center: ChunkCoord, cfg: ChunkConfig) -> Seq<ChunkCoord> {
    let out = loaded.filter(|c: ChunkCoord| !keeps(center, cfg, c));
    out.take(min_int(cfg.max_unloads_per_frame as int, out.len() as int))
}

/// The elements of `s` that are not in `gone`, in order.
pub open spec fn spec_without(s: Seq<ChunkCoord>, gone: Seq<ChunkCoord>) -> Seq<ChunkCoord> {
    s.filter(|c: ChunkCoord| !gone.contains(c))
}

/// Wanted chunks that are still missing after the unloads, at most the load cap.
pub open spec fn spec_load(loaded: Seq<ChunkCoord>, center: ChunkCoord, cfg: ChunkConfig) -> Seq<ChunkCoord> {
    let rest = spec_without(loaded, spec_unload(loaded, center, cfg));
    let missing = spec_without(spec_wanted(center, cfg.active_radius as int), rest);
    missing.take(min_int(cfg.max_loads_per_frame as int, missing.len() as int))
}

/// What the streaming bookkeeping holds after the plan is applied.
pub open spec fn spec_loaded_after(loaded: Seq<ChunkCoord>, center: ChunkCoord, cfg: ChunkConfig) -> Seq<ChunkCoord> {
    spec_without(loaded, spec_unload(loaded, center, cfg)) + spec_load(loaded, center, cfg)
}

/// The streaming request can be listed: the active square fits and the centre has neighbours.
pub open spec fn plan_fits(center: ChunkCoord, cfg: ChunkConfig) -> bool {
    &&& has_neighbours(center)
    &&& cfg.active_radius >= 0 ==> square_fits(center, cfg.active_radius as int)
}

/// Whether `v` holds `c`.
pub fn contains_coord(v: &Vec<ChunkCoord>, c: ChunkCoord) -> (b: bool)
    ensures
        b == v@.contains(c),
{
    let mut i: usize = 0;
    while i < v.len()
        invariant
            0 <= i <= v@.len(),
            forall|k: int| 0 <= k < i ==> v@[k] != c,
        decreases v@.len() - i,
    {
        if v[i] == c {
            return true;
        }
        i = i + 1;
    }
    false
}

fn keeps_exec(center: ChunkCoord, cfg: &ChunkConfig, c: ChunkCoord) -> (b: bool)
    ensures
        b == keeps(center, *cfg, c),
{
    let kr: i64 = cfg.active_radius as i64 + cfg.hysteresis as i64;
    kr >= 0 && center.x as i64 - kr <= c.x as i64 && c.x as i64 <= center.x as i64 + kr
        && center.z as i64 - kr <= c.z as i64 && c.z as i64 <= center.z as i64 + kr
}

fn in_square_exec(center: ChunkCoord, r: i32, c: ChunkCoord) -> (b: bool)
    ensures
        b == (r >= 0 && in_square(center, r as int, c)),
{
    let rr: i64 = r as i64;
    rr >= 0 && center.x as i64 - rr <= c.x as i64 && c.x as i64 <= center.x as i64 + rr
        && center.z as i64 - rr <= c.z as i64 && c.z as i64 <= center.z as i64 + rr
}

/// The elements of `s` that are not in `gone`, in order.
pub fn without(s: &Vec<ChunkCoord>, gone: &Vec<ChunkCoord>) -> (out: Vec<ChunkCoord>)
    ensures
        out@ == spec_without(s@, gone@),
{
    let ghost pred = |c: ChunkCoord| !gone@.contains(c);
    let mut out: Vec<ChunkCoord> = Vec::new();
    let mut i: usize = 0;
    while i < s.len()
        invariant
            0 <= i <= s@.len(),
            pred == (|c: ChunkCoord| !gone@.contains(c)),
            out@ == s@.take(i as int).filter(pred),
        decreases s@.len() - i,
    {
        proof {
            assert(s@.take(i as int + 1) =~= s@.take(i as int).push(s@[i as int]));
            s@.take(i as int).lemma_filter_push(s@[i as int], pred);
        }
        if !contains_coord(gone, s[i]) {
            out.push(s[i]);
        }
        i = i + 1;
    }
    proof {
        assert(s@.take(s@.len() as int) =~= s@);
    }
    out
}

fn outside_keep(loaded: &Vec<ChunkCoord>, center: ChunkCoord, cfg: &ChunkConfig) -> (out: Vec<ChunkCoord>)
    ensures
        out@ == loaded@.filter(|c: ChunkCoord| !keeps(center, *cfg, c)),
{
    let ghost pred = |c: ChunkCoord| !keeps(center, *cfg, c);
    let mut out: Vec<ChunkCoord> = Vec::new();
    let mut i: usize = 0;
    while i < loaded.len()
        invariant
            0 <= i <= loaded@.len(),
            pred == (|c: ChunkCoord| !keeps(center, *cfg, c)),
            out@ == loaded@.take(i as int).filter(pred),
        decreases loaded@.len() - i,
    {
        proof {
            assert(loaded@.take(i as int + 1) =~= loaded@.take(i as int).push(loaded@[i as int]));
            loaded@.take(i as int).lemma_filter_push(loaded@[i as int], pred);
        }
        if !keeps_exec(center, cfg, loaded[i]) {
            out.push(loaded[i]);
        }
        i = i + 1;
    }
    proof {
        assert(loaded@.take(loaded@.len() as int) =~= loaded@);
    }
    out
}

/// The active square around `center` followed by the neighbours outside it.
pub fn wanted_chunks(center: ChunkCoord, active_radius: i32) -> (out: Vec<ChunkCoord>)
    requires
        has_neighbours(center),
        active_radius >= 0 ==> square_fits(center, active_radius as int),
    ensures
        out@ == spec_wanted(center, active_radius as int),
{
    let mut out = desired_chunks(center, active_radius);
    let adj = adjacent_chunks(center);
    let ghost r = active_radius as int;
    let ghost pred = |c: ChunkCoord| !(r >= 0 && in_square(center, r, c));
    let ghost base = out@;
    proof {
        assert(base =~= spec_desired_seq(center, r));
    }
    let mut i: usize = 0;
    while i < adj.len()
        invariant
            0 <= i <= adj@.len(),
            adj@ == spec_adjacent(center),
            r == active_radius,
            base == spec_desired_seq(center, r),
            pred == (|c: ChunkCoord| !(r >= 0 && in_square(center, r, c))),
            out@ == base + adj@.take(i as int).filter(pred),
        decreases adj@.len() - i,
    {
        proof {
            assert(adj@.take(i as int + 1) =~= adj@.take(i as int).push(adj@[i as int]));
            adj@.take(i as int).lemma_filter_push(adj@[i as int], pred);
        }
        if !in_square_exec(center, active_radius, adj[i]) {
            out.push(adj[i]);
        }
        i = i + 1;
    }
    proof {
        assert(adj@.take(adj@.len() as int) =~= adj@);
    }
    out
}

/// Plan the unloads and loads for a player now standing in chunk `center`, given the
/// chunks currently loaded.
pub fn plan_chunk_updates(loaded: &Vec<ChunkCoord>, center: ChunkCoord, cfg: &ChunkConfig) -> (plan: ChunkUpdatePlan)
    requires
        plan_fits(center, *cfg),
    ensures
        plan.unload@ == spec_unload(loaded@, center, *cfg),
        plan.load@ == spec_load(loaded@, center, *cfg),
        forall|c: ChunkCoord| #[trigger] plan.unload@.contains(c) ==> {
            let k = cfg.active_radius + cfg.hysteresis;
            &&& loaded@.contains(c)
            &&& !(0 <= k && center.x - k <= c.x <= center.x + k && center.z - k <= c.z <= center.z + k)
        },
{
    let mut unload = outside_keep(loaded, center, cfg);
    let ucap = if cfg.max_unloads_per_frame <= unload.len() { cfg.max_unloads_per_frame } else { unload.len() };
    unload.truncate(ucap);
    let rest = without(loaded, &unload);
    let wanted = wanted_chunks(center, cfg.active_radius);
    let mut load = without(&wanted, &rest);
    let lcap = if cfg.max_loads_per_frame <= load.len() { cfg.max_loads_per_frame } else { load.len() };
    load.truncate(lcap);
    proof {
        assert forall|c: ChunkCoord| #[trigger] unload@.contains(c) implies {
            let k = cfg.active_radius + cfg.hysteresis;
            &&& loaded@.contains(c)
            &&& !(0 <= k && center.x - k <= c.x <= center.x + k && center.z - k <= c.z <= center.z + k)
        } by {
            law_unload_only_outside_keep_square(loaded@, center, *cfg, c);
        }
    }
    ChunkUpdatePlan { unload, load }
}


/// Membership in a filtered sequence.
pub proof fn lemma_filter_member(s: Seq<ChunkCoord>, p: spec_fn(ChunkCoord) -> bool, c: ChunkCoord)
    ensures
        s.filter(p).contains(c) <==> (s.contains(c) && p(c)),
{
    if s.filter(p).contains(c) {
        s.lemma_filter_contains_rev(p, c);
        let k = choose|k: int| 0 <= k < s.filter(p).len() && s.filter(p)[k] == c;
        s.lemma_filter_pred(p, k);
    }
    if s.contains(c) && p(c) {
        let k = choose|k: int| 0 <= k < s.len() && s[k] == c;
        s.lemma_filter_contains(p, k);
    }
}

/// Filtering keeps a sequence free of duplicates.
pub proof fn lemma_filter_no_dup(s: Seq<ChunkCoord>, p: spec_fn(ChunkCoord) -> bool)
    requires
        s.no_duplicates(),
    ensures
        s.filter(p).no_duplicates(),
    decreases s.len(),
{
    reveal(Seq::filter);
    if s.len() > 0 {
        let rest = s.drop_last();
        assert(rest.no_duplicates());
        lemma_filter_no_dup(rest, p);
        if p(s.last()) {
            let f = rest.filter(p);
            if f.contains(s.last()) {
                lemma_filter_member(rest, p, s.last());
                let k = choose|k: int| 0 <= k < rest.len() && rest[k] == s.last();
                assert(s[k] == s[s.len() - 1]);
            }
            assert forall|i: int, j: int| 0 <= i < f.push(s.last()).len() && 0 <= j < f.push(s.last()).len() && i != j
                implies f.push(s.last())[i] != f.push(s.last())[j] by {
                if i < f.len() && j < f.len() {
                } else if i < f.len() {
                    assert(f.contains(f[i]));
                } else {
                    assert(f.contains(f[j]));
                }
            }
        }
    }
}

/// A prefix of a duplicate-free sequence is duplicate-free and holds only its elements.
pub proof fn lemma_take_facts(s: Seq<ChunkCoord>, n: int)
    requires
        0 <= n <= s.len(),
    ensures
        s.no_duplicates() ==> s.take(n).no_duplicates(),
        forall|c: ChunkCoord| s.take(n).contains(c) ==> s.contains(c),
{
    assert forall|c: ChunkCoord| s.take(n).contains(c) implies s.contains(c) by {
        let k = choose|k: int| 0 <= k < s.take(n).len() && s.take(n)[k] == c;
        assert(s[k] == c);
    }
}

proof fn lemma_index_decomp(i: int, w: int)
    requires
        w > 0,
        0 <= i < w * w,
    ensures
        0 <= i % w < w,
        0 <= i / w < w,
        i == w * (i / w) + i % w,
{
    vstd::arithmetic::div_mod::lemma_fundamental_div_mod(i, w);
    vstd::arithmetic::div_mod::lemma_mod_pos_bound(i, w);
    let q = i / w;
    let m = i % w;
    assert(0 <= q < w) by (nonlinear_arith)
        requires i == w * q + m, 0 <= m < w, 0 <= i < w * w, w > 0;
}

proof fn lemma_desired_no_dup(center: ChunkCoord, r: int)
    requires
        r >= 0 ==> square_fits(center, r),
    ensures
        spec_desired_seq(center, r).no_duplicates(),
        forall|c: ChunkCoord| spec_desired_seq(center, r).contains(c) <==> (r >= 0 && in_square(center, r, c)),
{
    let d = spec_desired_seq(center, r);
    if r >= 0 {
        let w = 2 * r + 1;
        assert forall|i: int, j: int| 0 <= i < d.len() && 0 <= j < d.len() && i != j
            implies d[i] != d[j] by {
            lemma_index_decomp(i, w);
            lemma_index_decomp(j, w);
        }
        assert forall|c: ChunkCoord| in_square(center, r, c) implies d.contains(c) by {
            let col = c.x - (center.x - r);
            let row = c.z - (center.z - r);
            let k = row * w + col;
            assert(0 <= k < w * w) by (nonlinear_arith)
                requires 0 <= row < w, 0 <= col < w, k == row * w + col;
            crate::grid::lemma_cell_index(center, r, row, col);
            assert(d[k] == c);
        }
        assert forall|c: ChunkCoord| d.contains(c) implies in_square(center, r, c) by {
            let k = choose|k: int| 0 <= k < d.len() && d[k] == c;
            lemma_index_decomp(k, w);
        }
    }
}

proof fn lemma_wanted_facts(center: ChunkCoord, r: int)
    requires
        has_neighbours(center),
        r >= 0 ==> square_fits(center, r),
    ensures
        spec_wanted(center, r).no_duplicates(),
        forall|c: ChunkCoord| spec_wanted(center, r).contains(c) <==>
            ((r >= 0 && in_square(center, r, c)) || (in_square(center, 1, c) && c != center)),
{
    let d = spec_desired_seq(center, r);
    let pred = |c: ChunkCoord| !(r >= 0 && in_square(center, r, c));
    let a = spec_adjacent(center).filter(pred);
    lemma_desired_no_dup(center, r);
    crate::grid::law_adjacent_members(center);
    lemma_filter_no_dup(spec_adjacent(center), pred);
    assert forall|i: int, j: int| 0 <= i < d.len() && 0 <= j < a.len() implies d[i] != a[j] by {
        assert(d.contains(d[i]));
        assert(a.contains(a[j]));
        lemma_filter_member(spec_adjacent(center), pred, a[j]);
    }
    vstd::seq_lib::lemma_no_dup_in_concat(d, a);
    assert forall|c: ChunkCoord| (d + a).contains(c) <==>
        ((r >= 0 && in_square(center, r, c)) || (in_square(center, 1, c) && c != center)) by {
        lemma_filter_member(spec_adjacent(center), pred, c);
        if (d + a).contains(c) {
            let k = choose|k: int| 0 <= k < (d + a).len() && (d + a)[k] == c;
            if k < d.len() {
                assert(d[k] == c);
            } else {
                assert(a[k - d.len()] == c);
            }
        }
        if d.contains(c) {
            let k = choose|k: int| 0 <= k < d.len() && d[k] == c;
            assert((d + a)[k] == c);
        } else if a.contains(c) {
            let k = choose|k: int| 0 <= k < a.len() && a[k] == c;
            assert((d + a)[k + d.len()] == c);
        }
    }
}

/// A streaming step unloads only loaded chunks that lie outside the keep square: the
/// square of half-width `active_radius + hysteresis` around the player's chunk (which
/// is empty when that sum is negative). Every loaded chunk inside it stays.
pub proof fn law_unload_only_outside_keep_square(loaded: Seq<ChunkCoord>, center: ChunkCoord, cfg: ChunkConfig, c: ChunkCoord)
    ensures
        spec_unload(loaded, center, cfg).contains(c) ==> {
            let k = cfg.active_radius + cfg.hysteresis;
            &&& loaded.contains(c)
            &&& !(0 <= k && center.x - k <= c.x <= center.x + k && center.z - k <= c.z <= center.z + k)
        },
        ({
            let k = cfg.active_radius + cfg.hysteresis;
            loaded.contains(c) && 0 <= k && center.x - k <= c.x <= center.x + k && center.z - k <= c.z <= center.z + k
        }) ==> !spec_unload(loaded, center, cfg).contains(c),
{
    let kp = |c: ChunkCoord| !keeps(center, cfg, c);
    let outside = loaded.filter(kp);
    lemma_take_facts(outside, min_int(cfg.max_unloads_per_frame as int, outside.len() as int));
    lemma_filter_member(loaded, kp, c);
}

/// A streaming step never drops a chunk inside the keep radius, drops only loaded
/// chunks, creates only wanted chunks that are not loaded, respects both per-frame
/// caps, and keeps the set of loaded chunks free of duplicates.
pub proof fn law_streaming_step_is_sound(loaded: Seq<ChunkCoord>, center: ChunkCoord, cfg: ChunkConfig)
    requires
        plan_fits(center, cfg),
        loaded.no_duplicates(),
    ensures
        spec_unload(loaded, center, cfg).len() <= cfg.max_unloads_per_frame,
        spec_load(loaded, center, cfg).len() <= cfg.max_loads_per_frame,
        forall|c: ChunkCoord| #[trigger] spec_unload(loaded, center, cfg).contains(c)
            ==> loaded.contains(c) && !keeps(center, cfg, c),
        forall|c: ChunkCoord| #[trigger] spec_load(loaded, center, cfg).contains(c)
            ==> spec_wanted(center, cfg.active_radius as int).contains(c)
                && !spec_without(loaded, spec_unload(loaded, center, cfg)).contains(c),
        forall|c: ChunkCoord| keeps(center, cfg, c) && loaded.contains(c)
            ==> #[trigger] spec_loaded_after(loaded, center, cfg).contains(c),
        spec_loaded_after(loaded, center, cfg).no_duplicates(),
{
    let r = cfg.active_radius as int;
    let kp = |c: ChunkCoord| !keeps(center, cfg, c);
    let outside = loaded.filter(kp);
    let un = spec_unload(loaded, center, cfg);
    let gp = |c: ChunkCoord| !un.contains(c);
    let rest = spec_without(loaded, un);
    let wanted = spec_wanted(center, r);
    let rp = |c: ChunkCoord| !rest.contains(c);
    let missing = spec_without(wanted, rest);
    let ld = spec_load(loaded, center, cfg);
    lemma_take_facts(outside, min_int(cfg.max_unloads_per_frame as int, outside.len() as int));
    lemma_take_facts(missing, min_int(cfg.max_loads_per_frame as int, missing.len() as int));
    lemma_wanted_facts(center, r);
    lemma_filter_no_dup(loaded, gp);
    lemma_filter_no_dup(wanted, rp);
    assert forall|c: ChunkCoord| #[trigger] un.contains(c) implies loaded.contains(c) && !keeps(center, cfg, c) by {
        lemma_filter_member(loaded, kp, c);
    }
    assert forall|c: ChunkCoord| #[trigger] ld.contains(c)
        implies wanted.contains(c) && !rest.contains(c) by {
        lemma_filter_member(wanted, rp, c);
    }
    assert forall|c: ChunkCoord| keeps(center, cfg, c) && loaded.contains(c)
        implies #[trigger] spec_loaded_after(loaded, center, cfg).contains(c) by {
        lemma_filter_member(loaded, kp, c);
        lemma_filter_member(loaded, gp, c);
        let k = choose|k: int| 0 <= k < rest.len() && rest[k] == c;
        assert((rest + ld)[k] == c);
    }
    assert forall|i: int, j: int| 0 <= i < rest.len() && 0 <= j < ld.len() implies rest[i] != ld[j] by {
        assert(rest.contains(rest[i]));
        assert(ld.contains(ld[j]));
    }
    vstd::seq_lib::lemma_no_dup_in_concat(rest, ld);
}

/// When the load cap covers every missing chunk, a streaming step leaves every
/// chunk of the active square and every neighbour of the centre loaded.
pub proof fn law_streaming_step_completes(loaded: Seq<ChunkCoord>, center: ChunkCoord, cfg: ChunkConfig, c: ChunkCoord)
    requires
        plan_fits(center, cfg),
        cfg.max_loads_per_frame >= spec_without(
            spec_wanted(center, cfg.active_radius as int),
            spec_without(loaded, spec_unload(loaded, center, cfg)),
        ).len(),
        (cfg.active_radius >= 0 && in_square(center, cfg.active_radius as int, c))
            || (in_square(center, 1, c) && c != center),
    ensures
        spec_loaded_after(loaded, center, cfg).contains(c),
{
    let r = cfg.active_radius as int;
    let un = spec_unload(loaded, center, cfg);
    let rest = spec_without(loaded, un);
    let wanted = spec_wanted(center, r);
    let rp = |c: ChunkCoord| !rest.contains(c);
    let missing = spec_without(wanted, rest);
    let ld = spec_load(loaded, center, cfg);
    lemma_wanted_facts(center, r);
    assert(ld =~= missing);
    if rest.contains(c) {
        let k = choose|k: int| 0 <= k < rest.len() && rest[k] == c;
        assert((rest + ld)[k] == c);
    } else {
        lemma_filter_member(wanted, rp, c);
        let k = choose|k: int| 0 <= k < missing.len() && missing[k] == c;
        assert((rest + ld)[rest.len() + k] == c);
    }
}


/// Function keys pressed this frame that tune streaming:
/// F8/F9 radius down/up, F10/F11 hysteresis down/up, F6/F7 load cap down/up,
/// F4/F5 unload cap down/up.
#[derive(Debug, Clone, Copy, PartialEq, Eq, Structural)]
pub struct ChunkShortcutKeys {
    pub radius_down: bool,
    pub radius_up: bool,
    pub hysteresis_down: bool,
    pub hysteresis_up: bool,
    pub loads_down: bool,
    pub loads_up: bool,
    pub unloads_down: bool,
    pub unloads_up: bool,
}

/// The larger of two integers.
pub open spec fn max_int(a: int, b: int) -> int {
    if a >= b { a } else { b }
}

/// A value stepped down by one (not below `lo`) when `down`, then up by one (not above `hi`) when `up`.
pub open spec fn stepped(v: int, down: bool, up: bool, lo: int, hi: int) -> int {
    let a = if down { max_int(v - 1, lo) } else { v };
    if up { min_int(a + 1, hi) } else { a }
}

/// A cap stepped down by one with saturation at zero and then at least one, and up by one to at most `hi`.
pub open spec fn stepped_cap(v: int, down: bool, up: bool, hi: int) -> int {
    let a = if down { max_int(max_int(v - 1, 0), 1) } else { v };
    if up { min_int(a + 1, hi) } else { a }
}

/// The configuration after the shortcut keys of one frame.
pub open spec fn spec_apply_shortcuts(cfg: ChunkConfig, keys: ChunkShortcutKeys) -> ChunkConfig {
    ChunkConfig {
        active_radius: stepped(cfg.active_radius as int, keys.radius_down, keys.radius_up, 1, 6) as i32,
        hysteresis: stepped(cfg.hysteresis as int, keys.hysteresis_down, keys.hysteresis_up, 0, 3) as i32,
        max_loads_per_frame: stepped_cap(cfg.max_loads_per_frame as int, keys.loads_down, keys.loads_up, 8) as usize,
        max_unloads_per_frame: stepped_cap(cfg.max_unloads_per_frame as int, keys.unloads_down, keys.unloads_up, 16) as usize,
    }
}

/// Apply the streaming shortcut keys: radius in steps within `[1, 6]`, hysteresis within
/// `[0, 3]`, load cap within `[1, 8]`, unload cap within `[1, 16]`.
pub fn chunk_config_shortcuts(cfg: &mut ChunkConfig, keys: ChunkShortcutKeys)
    requires
        keys.radius_down ==> old(cfg).active_radius > i32::MIN,
        keys.radius_up ==> old(cfg).active_radius < i32::MAX,
        keys.hysteresis_down ==> old(cfg).hysteresis > i32::MIN,
        keys.hysteresis_up ==> old(cfg).hysteresis < i32::MAX,
        keys.loads_up ==> old(cfg).max_loads_per_frame < usize::MAX,
        keys.unloads_up ==> old(cfg).max_unloads_per_frame < usize::MAX,
    ensures
        *final(cfg) == spec_apply_shortcuts(*old(cfg), keys),
{
    if keys.radius_down {
        let v = cfg.active_radius - 1;
        cfg.active_radius = if v >= 1 { v } else { 1 };
    }
    if keys.radius_up {
        let v = cfg.active_radius + 1;
        cfg.active_radius = if v <= 6 { v } else { 6 };
    }
    if keys.hysteresis_down {
        let v = cfg.hysteresis - 1;
        cfg.hysteresis = if v >= 0 { v } else { 0 };
    }
    if keys.hysteresis_up {
        let v = cfg.hysteresis + 1;
        cfg.hysteresis = if v <= 3 { v } else { 3 };
    }
    if keys.loads_down {
        let v = cfg.max_loads_per_frame.saturating_sub(1);
        cfg.max_loads_per_frame = if v >= 1 { v } else { 1 };
    }
    if keys.loads_up {
        let v = cfg.max_loads_per_frame + 1;
        cfg.max_loads_per_frame = if v <= 8 { v } else { 8 };
    }
    if keys.unloads_down {
        let v = cfg.max_unloads_per_frame.saturating_sub(1);
        cfg.max_unloads_per_frame = if v >= 1 { v } else { 1 };
    }
    if keys.unloads_up {
        let v = cfg.max_unloads_per_frame + 1;
        cfg.max_unloads_per_frame = if v <= 16 { v } else { 16 };
    }
}

/// The ranges the streaming shortcuts keep a configuration in.
pub open spec fn tuned_range(cfg: ChunkConfig) -> bool {
    &&& 1 <= cfg.active_radius <= 6
    &&& 0 <= cfg.hysteresis <= 3
    &&& 1 <= cfg.max_loads_per_frame <= 8
    &&& 1 <= cfg.max_unloads_per_frame <= 16
}

/// A configuration inside the shortcut ranges stays inside them whatever keys are pressed.
pub proof fn law_shortcuts_keep_range(cfg: ChunkConfig, keys: ChunkShortcutKeys)
    requires
        tuned_range(cfg),
    ensures
        tuned_range(spec_apply_shortcuts(cfg, keys)),
{
}

/// The chunk the player stood in when streaming last ran.
pub struct ChunkTracker {
    pub last_chunk: Option<ChunkCoord>,
}

impl ChunkTracker {
    /// A tracker that has seen no chunk yet.
    pub fn new() -> (t: Self)
        ensures
            t.last_chunk is None,
    {
        ChunkTracker { last_chunk: None }
    }

    /// Record the player's chunk; true exactly when it differs from the last one seen,
    /// which is when loads and unloads must be planned.
    pub fn observe(&mut self, current: ChunkCoord) -> (changed: bool)
        ensures
            changed == (old(self).last_chunk != Some(current)),
            final(self).last_chunk == Some(current),
    {
        let changed = match self.last_chunk {
            Some(c) => c != current,
            None => true,
        };
        self.last_chunk = Some(current);
        changed
    }
}

} // verus!
