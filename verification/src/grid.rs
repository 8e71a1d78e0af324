//! Integer chunk coordinates and chunk neighbourhoods.
use vstd::prelude::*;

verus! {

/// Coordinate of a square world chunk on the XZ plane.
#[derive(Debug, Clone, Copy, PartialEq, Eq, Hash, Structural)]
pub struct ChunkCoord {
    pub x: i32,
    pub z: i32,
}

impl Default for ChunkCoord {
    fn default() -> (c: Self)
        ensures
            c == (ChunkCoord { x: 0, z: 0 }),
    {
        ChunkCoord { x: 0, z: 0 }
    }
}

/// `c` lies in the square of Chebyshev radius `r` around `center`.
pub open spec fn in_square(center: ChunkCoord, r: int, c: ChunkCoord) -> bool {
    &&& center.x - r <= c.x <= center.x + r
    &&& center.z - r <= c.z <= center.z + r
}

/// The square of radius `r` around `center` can be listed without leaving `i32`
/// and without the list outgrowing `usize`.
pub open spec fn square_fits(center: ChunkCoord, r: int) -> bool {
    &&& i32::MIN <= center.x - r
    &&& center.x + r <= i32::MAX
    &&& i32::MIN <= center.z - r
    &&& center.z + r <= i32::MAX
    &&& (2 * r + 1) * (2 * r + 1) <= usize::MAX
}

/// Row-major order of the cells: all of row `z` comes before row `z + 1`.
pub open spec fn row_major_before(a: ChunkCoord, b: ChunkCoord) -> bool {
    a.z < b.z || (a.z == b.z && a.x < b.x)
}

/// The `i`-th cell of the radius-`r` square around `center` in row-major order.
pub open spec fn square_cell(center: ChunkCoord, r: int, i: int) -> ChunkCoord {
    let w = 2 * r + 1;
    ChunkCoord { x: (center.x - r + i % w) as i32, z: (center.z - r + i / w) as i32 }
}

/// Position of the cell at row `row`, column `col` of the square in row-major order.
pub proof fn lemma_cell_index(center: ChunkCoord, r: int, row: int, col: int)
    requires
        r >= 0,
        0 <= row,
        0 <= col < 2 * r + 1,
    ensures
        square_cell(center, r, row * (2 * r + 1) + col)
            == (ChunkCoord { x: (center.x - r + col) as i32, z: (center.z - r + row) as i32 }),
{
    vstd::arithmetic::div_mod::lemma_fundamental_div_mod_converse(
        row * (2 * r + 1) + col, 2 * r + 1, row, col);
}

proof fn lemma_square_len_step(done_rows: int, w: int, col: int)
    requires
        0 <= done_rows,
        0 <= col < w,
    ensures
        done_rows * w + col + 1 == done_rows * w + (col + 1),
        col + 1 == w ==> done_rows * w + (col + 1) == (done_rows + 1) * w,
{
    assert((done_rows + 1) * w == done_rows * w + w) by (nonlinear_arith);
}

/// Return the square neighborhood of chunks within radius `r` around `center` (inclusive),
/// row by row; empty for a negative radius.
pub fn desired_chunks(center: ChunkCoord, r: i32) -> (out: Vec<ChunkCoord>)
    requires
        r >= 0 ==> square_fits(center, r as int),
    ensures
        r < 0 ==> out@.len() == 0,
        r >= 0 ==> out@.len() == (2 * r + 1) * (2 * r + 1),
        forall|i: int| 0 <= i < out@.len() ==> #[trigger] out@[i] == square_cell(center, r as int, i),
        out@.no_duplicates(),
        forall|c: ChunkCoord| out@.contains(c) <==> (r >= 0 && in_square(center, r as int, c)),
        forall|i: int, j: int|
            0 <= i < j < out@.len() ==> row_major_before(#[trigger] out@[i], #[trigger] out@[j]),
{
    let mut out: Vec<ChunkCoord> = Vec::new();
    if r < 0 {
        return out;
    }
    let ghost w: int = 2 * r + 1;
    let lo: i64 = -(r as i64);
    let hi: i64 = r as i64;
    let mut dz: i64 = lo;
    while dz <= hi
        invariant
            r >= 0,
            square_fits(center, r as int),
            w == 2 * r + 1,
            lo == -r,
            hi == r,
            lo <= dz <= hi + 1,
            out@.len() == (dz - lo) * w,
            forall|i: int| 0 <= i < out@.len() ==> #[trigger] out@[i] == square_cell(center, r as int, i),
            forall|i: int| 0 <= i < out@.len() ==> in_square(center, r as int, #[trigger] out@[i]),
            forall|i: int| 0 <= i < out@.len() ==> (#[trigger] out@[i]).z < center.z + dz,
            forall|c: ChunkCoord|
                in_square(center, r as int, c) && c.z < center.z + dz ==> out@.contains(c),
            forall|i: int, j: int|
                0 <= i < j < out@.len() ==> row_major_before(#[trigger] out@[i], #[trigger] out@[j]),
        decreases hi + 1 - dz,
    {
        let z: i32 = (center.z as i64 + dz) as i32;
        let mut dx: i64 = lo;
        while dx <= hi
            invariant
                r >= 0,
                square_fits(center, r as int),
                w == 2 * r + 1,
                lo == -r,
                hi == r,
                lo <= dz <= hi,
                z == center.z + dz,
                lo <= dx <= hi + 1,
                out@.len() == (dz - lo) * w + (dx - lo),
                forall|i: int| 0 <= i < out@.len() ==> #[trigger] out@[i] == square_cell(center, r as int, i),
                forall|i: int|
                    0 <= i < out@.len() ==> in_square(center, r as int, #[trigger] out@[i]),
                forall|i: int|
                    0 <= i < out@.len() ==> ((#[trigger] out@[i]).z < z || (out@[i].z == z && out@[i].x < center.x + dx)),
                forall|c: ChunkCoord|
                    in_square(center, r as int, c) && (c.z < z || (c.z == z && c.x < center.x + dx))
                        ==> out@.contains(c),
                forall|i: int, j: int|
                    0 <= i < j < out@.len() ==> row_major_before(#[trigger] out@[i], #[trigger] out@[j]),
            decreases hi + 1 - dx,
        {
            let c = ChunkCoord { x: (center.x as i64 + dx) as i32, z };
            proof {
                lemma_square_len_step(dz - lo, w, dx - lo);
                lemma_cell_index(center, r as int, dz - lo, dx - lo);
            }
            let ghost old_out = out@;
            out.push(c);
            proof {
                assert(out@[old_out.len() as int] == c);
                assert forall|cc: ChunkCoord|
                    in_square(center, r as int, cc) && (cc.z < z || (cc.z == z && cc.x < center.x + dx + 1))
                    implies out@.contains(cc) by {
                    if cc == c {
                        assert(out@[old_out.len() as int] == cc);
                    } else {
                        assert(old_out.contains(cc));
                        let k = choose|k: int| 0 <= k < old_out.len() && old_out[k] == cc;
                        assert(out@[k] == cc);
                    }
                }
            }
            dx = dx + 1;
        }
        proof {
            lemma_square_len_step(dz - lo, w, w - 1);
        }
        dz = dz + 1;
    }
    proof {
        assert forall|i: int, j: int| 0 <= i < out@.len() && 0 <= j < out@.len() && i != j
            implies out@[i] != out@[j] by {
            if i < j {
                assert(row_major_before(out@[i], out@[j]));
            } else {
                assert(row_major_before(out@[j], out@[i]));
            }
        }
    }
    out
}


/// A centre whose eight neighbours all have `i32` coordinates.
pub open spec fn has_neighbours(center: ChunkCoord) -> bool {
    &&& i32::MIN < center.x < i32::MAX
    &&& i32::MIN < center.z < i32::MAX
}

/// The eight neighbours in listing order: the four cardinal ones (z+1, z-1, x-1, x+1),
/// then the four diagonal ones (-x+z, +x+z, -x-z, +x-z).
pub open spec fn spec_adjacent(center: ChunkCoord) -> Seq<ChunkCoord> {
    let (x, z) = (center.x, center.z);
    seq![
        ChunkCoord { x: x, z: (z + 1) as i32 },
        ChunkCoord { x: x, z: (z - 1) as i32 },
        ChunkCoord { x: (x - 1) as i32, z: z },
        ChunkCoord { x: (x + 1) as i32, z: z },
        ChunkCoord { x: (x - 1) as i32, z: (z + 1) as i32 },
        ChunkCoord { x: (x + 1) as i32, z: (z + 1) as i32 },
        ChunkCoord { x: (x - 1) as i32, z: (z - 1) as i32 },
        ChunkCoord { x: (x + 1) as i32, z: (z - 1) as i32 },
    ]
}

/// The eight neighbours are distinct and are exactly the radius-1 square minus the centre.
pub proof fn law_adjacent_members(center: ChunkCoord)
    requires
        has_neighbours(center),
    ensures
        spec_adjacent(center).no_duplicates(),
        forall|c: ChunkCoord|
            spec_adjacent(center).contains(c) <==> (in_square(center, 1, c) && c != center),
{
    let s = spec_adjacent(center);
    assert forall|c: ChunkCoord| (in_square(center, 1, c) && c != center) implies s.contains(c) by {
        if c.x == center.x && c.z == center.z + 1 { assert(s[0] == c); }
        else if c.x == center.x && c.z == center.z - 1 { assert(s[1] == c); }
        else if c.x == center.x - 1 && c.z == center.z { assert(s[2] == c); }
        else if c.x == center.x + 1 && c.z == center.z { assert(s[3] == c); }
        else if c.x == center.x - 1 && c.z == center.z + 1 { assert(s[4] == c); }
        else if c.x == center.x + 1 && c.z == center.z + 1 { assert(s[5] == c); }
        else if c.x == center.x - 1 && c.z == center.z - 1 { assert(s[6] == c); }
        else { assert(s[7] == c); }
    }
}

/// Get the 8 adjacent chunks (cardinal + diagonal) around a center chunk.
pub fn adjacent_chunks(center: ChunkCoord) -> (out: Vec<ChunkCoord>)
    requires
        has_neighbours(center),
    ensures
        out@ == spec_adjacent(center),
        out@.no_duplicates(),
        forall|c: ChunkCoord| out@.contains(c) <==> (in_square(center, 1, c) && c != center),
{
    let x = center.x;
    let z = center.z;
    let mut out: Vec<ChunkCoord> = Vec::new();
    out.push(ChunkCoord { x, z: z + 1 });
    out.push(ChunkCoord { x, z: z - 1 });
    out.push(ChunkCoord { x: x - 1, z });
    out.push(ChunkCoord { x: x + 1, z });
    out.push(ChunkCoord { x: x - 1, z: z + 1 });
    out.push(ChunkCoord { x: x + 1, z: z + 1 });
    out.push(ChunkCoord { x: x - 1, z: z - 1 });
    out.push(ChunkCoord { x: x + 1, z: z - 1 });
    proof {
        assert(out@ =~= spec_adjacent(center));
        law_adjacent_members(center);
    }
    out
}

/// The chunks loaded at game start: the centre chunk followed by its eight neighbours.
pub fn initial_chunks(center: ChunkCoord) -> (out: Vec<ChunkCoord>)
    requires
        has_neighbours(center),
    ensures
        out@ == seq![center] + spec_adjacent(center),
        out@.no_duplicates(),
        forall|c: ChunkCoord| out@.contains(c) <==> in_square(center, 1, c),
{
    let mut out: Vec<ChunkCoord> = Vec::new();
    out.push(center);
    let adj = adjacent_chunks(center);
    let mut i: usize = 0;
    while i < adj.len()
        invariant
            adj@ == spec_adjacent(center),
            0 <= i <= adj@.len(),
            out@ == seq![center] + adj@.take(i as int),
        decreases adj@.len() - i,
    {
        out.push(adj[i]);
        proof {
            assert(adj@.take(i as int + 1) =~= adj@.take(i as int).push(adj@[i as int]));
        }
        i = i + 1;
    }
    proof {
        assert(adj@.take(adj@.len() as int) =~= adj@);
        law_adjacent_members(center);
        let s = out@;
        assert forall|c: ChunkCoord| s.contains(c) <==> in_square(center, 1, c) by {
            if c == center {
                assert(s[0] == c);
            } else if in_square(center, 1, c) {
                assert(adj@.contains(c));
                let k = choose|k: int| 0 <= k < adj@.len() && adj@[k] == c;
                assert(s[k + 1] == c);
            }
            if s.contains(c) {
                let k = choose|k: int| 0 <= k < s.len() && s[k] == c;
                if k > 0 {
                    assert(adj@[k - 1] == c);
                }
            }
        }
        assert forall|i: int, j: int| 0 <= i < s.len() && 0 <= j < s.len() && i != j
            implies s[i] != s[j] by {
            if i > 0 && j > 0 {
                assert(s[i] == adj@[i - 1]);
                assert(s[j] == adj@[j - 1]);
            } else if i == 0 {
                assert(adj@.contains(s[j]));
            } else {
                assert(adj@.contains(s[i]));
            }
        }
    }
    out
}

/// Loading the centre and its neighbours covers exactly the radius-1 square that
/// `desired_chunks(center, 1)` lists.
pub proof fn law_initial_chunks_are_radius_one(center: ChunkCoord, c: ChunkCoord)
    requires
        has_neighbours(center),
    ensures
        (c == center || spec_adjacent(center).contains(c)) <==> in_square(center, 1, c),
{
    law_adjacent_members(center);
}

} // verus!
