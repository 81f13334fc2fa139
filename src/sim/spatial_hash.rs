//! The per-tick neighbour index: particles grouped by the uniform-grid cell
//! they fall in, rebuilt from scratch every step, and the fixed order in
//! which a particle's 3x3 block of cells is visited.

use std::collections::HashMap;
use vstd::prelude::*;

verus! {

broadcast use vstd::std_specs::hash::group_hash_axioms;

/// A cell of the uniform grid: its column and row.
pub type GridPoint = (i64, i64);

/// Cell columns and rows span the whole `i64` range; a key packs one cell
/// into a single `i128` by giving each column a block of 2^64 rows.
pub open spec fn row_span() -> int {
    0x1_0000_0000_0000_0000
}

/// The map key of cell (x, y).
pub open spec fn pack(x: int, y: int) -> int {
    x * row_span() + (y - i64::MIN)
}

/// The indices below `n` whose cell is (x, y), in increasing order.
pub open spec fn members_below(keys: Seq<GridPoint>, x: int, y: int, n: int) -> Seq<usize>
    decreases n,
{
    if n <= 0 {
        Seq::empty()
    } else {
        let earlier = members_below(keys, x, y, n - 1);
        if keys[n - 1].0 == x && keys[n - 1].1 == y {
            earlier.push((n - 1) as usize)
        } else {
            earlier
        }
    }
}

/// The indices whose cell is (x, y), in increasing order: what the hash
/// built from `keys` holds under that cell.
pub open spec fn members(keys: Seq<GridPoint>, x: int, y: int) -> Seq<usize> {
    members_below(keys, x, y, keys.len() as int)
}

/// The cell visited `j`-th (counting from 0) around (x, y): columns x-1, x,
/// x+1 in turn, and within each column the rows y-1, y, y+1.
pub open spec fn around(x: int, y: int, j: int) -> (int, int) {
    (x + j / 3 - 1, y + j % 3 - 1)
}

/// The candidates of the first `j` cells around (x, y), cell after cell,
/// each cell's indices in increasing order.
pub open spec fn neighbourhood_prefix(keys: Seq<GridPoint>, x: int, y: int, j: int) -> Seq<usize>
    decreases j,
{
    if j <= 0 {
        Seq::empty()
    } else {
        let c = around(x, y, j - 1);
        neighbourhood_prefix(keys, x, y, j - 1) + members(keys, c.0, c.1)
    }
}

/// All neighbour candidates of a particle in cell (x, y): the indices of the
/// nine cells of its 3x3 block, in the fixed traversal order.
pub open spec fn neighbourhood(keys: Seq<GridPoint>, x: int, y: int) -> Seq<usize> {
    neighbourhood_prefix(keys, x, y, 9)
}

/// What the map holds under cell (x, y) after the first `n` keys went in.
pub open spec fn cell_agrees(m: Map<i128, Vec<usize>>, keys: Seq<GridPoint>, x: i64, y: i64, n: int) -> bool {
    let p = pack(x as int, y as int) as i128;
    &&& m.contains_key(p) <==> members_below(keys, x as int, y as int, n).len() > 0
    &&& m.contains_key(p) ==> m[p]@ == members_below(keys, x as int, y as int, n)
}

proof fn lemma_pack_injective(x1: i64, y1: i64, x2: i64, y2: i64)
    requires
        pack(x1 as int, y1 as int) == pack(x2 as int, y2 as int),
    ensures
        x1 == x2,
        y1 == y2,
{
    let d = x1 - x2;
    let e = y2 - y1;
    assert(d * row_span() == e);
    if d > 0 {
        assert(d * row_span() >= row_span()) by (nonlinear_arith)
            requires d >= 1;
    } else if d < 0 {
        assert(d * row_span() <= -row_span()) by (nonlinear_arith)
            requires d <= -1;
    }
}

proof fn lemma_pack_range(x: i64, y: i64)
    ensures
        i128::MIN <= pack(x as int, y as int) <= i128::MAX,
{
    assert(i64::MIN * row_span() <= x * row_span() <= i64::MAX * row_span()) by (nonlinear_arith)
        requires i64::MIN <= x <= i64::MAX;
}

/// No index lies in a cell whose row or column an `i64` cannot hold.
proof fn lemma_members_out_of_range(keys: Seq<GridPoint>, x: int, y: int, n: int)
    requires
        !(i64::MIN <= x <= i64::MAX && i64::MIN <= y <= i64::MAX),
    ensures
        members_below(keys, x, y, n) == Seq::<usize>::empty(),
    decreases n,
{
    if n > 0 {
        lemma_members_out_of_range(keys, x, y, n - 1);
    }
}

proof fn lemma_members_below(keys: Seq<GridPoint>, x: int, y: int, n: int)
    requires
        0 <= n <= keys.len(),
        keys.len() <= usize::MAX,
    ensures
        forall|i: usize| #[trigger]
            members_below(keys, x, y, n).contains(i) <==> (i < n && keys[i as int].0 == x
                && keys[i as int].1 == y),
        forall|a: int, b: int|
            0 <= a < b < members_below(keys, x, y, n).len() ==> #[trigger] members_below(
                keys,
                x,
                y,
                n,
            )[a] < #[trigger] members_below(keys, x, y, n)[b],
        forall|a: int|
            0 <= a < members_below(keys, x, y, n).len() ==> #[trigger] members_below(
                keys,
                x,
                y,
                n,
            )[a] < n,
    decreases n,
{
    if n > 0 {
        lemma_members_below(keys, x, y, n - 1);
        let earlier = members_below(keys, x, y, n - 1);
        let now = members_below(keys, x, y, n);
        if keys[n - 1].0 == x && keys[n - 1].1 == y {
            let last = (n - 1) as usize;
            assert(now == earlier.push(last));
            assert forall|i: usize| #[trigger]
                now.contains(i) <==> (i < n && keys[i as int].0 == x && keys[i as int].1 == y) by {
                if now.contains(i) {
                    let a = choose|a: int| 0 <= a < now.len() && now[a] == i;
                    if a < earlier.len() {
                        assert(earlier[a] == i);
                        assert(earlier.contains(i));
                    }
                }
                if i < n && keys[i as int].0 == x && keys[i as int].1 == y {
                    if i == last {
                        assert(now[now.len() - 1] == i);
                    } else {
                        assert(earlier.contains(i));
                        let a = choose|a: int| 0 <= a < earlier.len() && earlier[a] == i;
                        assert(now[a] == i);
                    }
                }
            }
            assert forall|a: int, b: int| 0 <= a < b < now.len() implies #[trigger] now[a] < #[trigger] now[b] by {
                if b < earlier.len() {
                    assert(now[a] == earlier[a] && now[b] == earlier[b]);
                } else {
                    assert(now[a] == earlier[a]);
                    assert(earlier[a] < n - 1);
                }
            }
            assert forall|a: int| 0 <= a < now.len() implies #[trigger] now[a] < n by {
                if a < earlier.len() {
                    assert(now[a] == earlier[a]);
                }
            }
        } else {
            assert(now == earlier);
        }
    }
}

/// What the index holds under a cell depends on the particles' cells alone:
/// exactly the particles in that cell, in strictly increasing order, so each
/// of them once. Two indexes built over the same particle cells therefore
/// hold the same indices under every cell.
pub proof fn lemma_cell_contents(keys: Seq<GridPoint>, x: int, y: int)
    requires
        keys.len() <= usize::MAX,
    ensures
        forall|i: usize| #[trigger]
            members(keys, x, y).contains(i) <==> (i < keys.len() && keys[i as int].0 == x
                && keys[i as int].1 == y),
        forall|a: int, b: int|
            0 <= a < b < members(keys, x, y).len() ==> #[trigger] members(keys, x, y)[a]
                < #[trigger] members(keys, x, y)[b],
{
    lemma_members_below(keys, x, y, keys.len() as int);
}

/// Every particle stands in the cell of its own key, and in no other cell.
pub proof fn lemma_particle_in_own_cell(keys: Seq<GridPoint>, i: usize)
    requires
        i < keys.len(),
        keys.len() <= usize::MAX,
    ensures
        members(keys, keys[i as int].0 as int, keys[i as int].1 as int).contains(i),
        forall|x: int, y: int|
            (x, y) != (keys[i as int].0 as int, keys[i as int].1 as int) ==> !#[trigger] members(
                keys,
                x,
                y,
            ).contains(i),
{
    lemma_cell_contents(keys, keys[i as int].0 as int, keys[i as int].1 as int);
    assert forall|x: int, y: int|
        (x, y) != (keys[i as int].0 as int, keys[i as int].1 as int) implies !#[trigger] members(
            keys,
            x,
            y,
        ).contains(i) by {
        lemma_cell_contents(keys, x, y);
    }
}

fn pack_key(x: i64, y: i64) -> (r: i128)
    ensures
        r == pack(x as int, y as int),
{
    proof {
        lemma_pack_range(x, y);
    }
    let span: i128 = 0x1_0000_0000_0000_0000;
    (x as i128) * span + ((y as i128) - (i64::MIN as i128))
}

/// The neighbour index of one tick: for each particle the grid cell it fell
/// in, and for each occupied cell the particles in it.
pub struct SpatialHash {
    keys: Vec<GridPoint>,
    cells: HashMap<i128, Vec<usize>>,
}

impl View for SpatialHash {
    /// The cell of each particle, by index.
    type V = Seq<GridPoint>;

    closed spec fn view(&self) -> Seq<GridPoint> {
        self.keys@
    }
}

impl SpatialHash {
    #[verifier::type_invariant]
    spec fn cells_agree(&self) -> bool {
        forall|x: i64, y: i64|
            #[trigger] cell_agrees(self.cells@, self.keys@, x, y, self.keys@.len() as int)
    }

    /// Indexes particles by their cells: `keys[i]` is the cell of particle `i`.
    pub fn build(keys: Vec<GridPoint>) -> (r: SpatialHash)
        ensures
            r@ == keys@,
    {
        let mut cells: HashMap<i128, Vec<usize>> = HashMap::new();
        let mut i: usize = 0;
        while i < keys.len()
            invariant
                0 <= i <= keys.len(),
                forall|x: i64, y: i64| #[trigger] cell_agrees(cells@, keys@, x, y, i as int),
            decreases keys.len() - i,
        {
            let k = keys[i];
            let p = pack_key(k.0, k.1);
            let ghost before = cells@;
            let bucket = match cells.remove(&p) {
                Some(v) => {
                    let mut v = v;
                    v.push(i);
                    v
                },
                None => {
                    let mut v: Vec<usize> = Vec::new();
                    v.push(i);
                    v
                },
            };
            proof {
                assert(cell_agrees(before, keys@, k.0, k.1, i as int));
                assert(bucket@ == members_below(keys@, k.0 as int, k.1 as int, i + 1));
            }
            cells.insert(p, bucket);
            assert forall|x: i64, y: i64| #[trigger] cell_agrees(cells@, keys@, x, y, i + 1) by {
                assert(cell_agrees(before, keys@, x, y, i as int));
                if x != k.0 || y != k.1 {
                    if pack(x as int, y as int) == p {
                        lemma_pack_injective(x, y, k.0, k.1);
                    }
                }
            }
            i = i + 1;
        }
        SpatialHash { keys, cells }
    }

    /// The number of indexed particles.
    pub fn len(&self) -> (r: usize)
        ensures
            r == self@.len(),
    {
        self.keys.len()
    }

    /// The cell of particle `i`.
    pub fn key(&self, i: usize) -> (r: GridPoint)
        requires
            i < self@.len(),
        ensures
            r == self@[i as int],
    {
        self.keys[i]
    }

    /// The particles in one cell, in increasing index order; `None` for a
    /// cell that holds none.
    pub fn get(&self, key: GridPoint) -> (r: Option<&Vec<usize>>)
        ensures
            match r {
                Some(v) => v@ == members(self@, key.0 as int, key.1 as int) && v@.len() > 0,
                None => members(self@, key.0 as int, key.1 as int).len() == 0,
            },
    {
        proof {
            use_type_invariant(self);
            assert(cell_agrees(self.cells@, self.keys@, key.0, key.1, self.keys@.len() as int));
        }
        let p = pack_key(key.0, key.1);
        self.cells.get(&p)
    }

    /// The neighbour candidates of a particle in cell `key`: the particles of
    /// the nine cells of its 3x3 block, column by column and row by row within
    /// a column, each cell in increasing index order. The particle itself is
    /// among them.
    pub fn neighbours(&self, key: GridPoint) -> (r: Vec<usize>)
        ensures
            r@ == neighbourhood(self@, key.0 as int, key.1 as int),
    {
        let mut out: Vec<usize> = Vec::new();
        let mut j: i64 = 0;
        while j < 9
            invariant
                0 <= j <= 9,
                out@ == neighbourhood_prefix(self@, key.0 as int, key.1 as int, j as int),
            decreases 9 - j,
        {
            let ghost c = around(key.0 as int, key.1 as int, j as int);
            let cx = key.0.checked_add(j / 3 - 1);
            let cy = key.1.checked_add(j % 3 - 1);
            match (cx, cy) {
                (Some(cx), Some(cy)) => {
                    assert(cx == c.0 && cy == c.1);
                    if let Some(v) = self.get((cx, cy)) {
                        let mut t: usize = 0;
                        let ghost start = out@;
                        while t < v.len()
                            invariant
                                0 <= t <= v.len(),
                                out@ == start + v@.subrange(0, t as int),
                            decreases v.len() - t,
                        {
                            out.push(v[t]);
                            assert(v@.subrange(0, t + 1) == v@.subrange(0, t as int).push(v@[t as int]));
                            t = t + 1;
                        }
                        assert(v@.subrange(0, v@.len() as int) == v@);
                    } else {
                        assert(members(self@, c.0, c.1) == Seq::<usize>::empty());
                        assert(out@ + Seq::<usize>::empty() == out@);
                    }
                },
                _ => {
                    proof {
                        lemma_members_out_of_range(self@, c.0, c.1, self@.len() as int);
                    }
                    assert(out@ + Seq::<usize>::empty() == out@);
                },
            }
            j = j + 1;
        }
        out
    }
}

} // verus!
