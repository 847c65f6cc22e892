//! The block registry: a sparse mapping from integer grid coordinates to
//! placed blocks. It is the single source of truth for which geometry
//! exists; absence of a key means empty space.

use vstd::prelude::*;

verus! {

/// Integer grid coordinate, the unique key of a block slot. Two
/// coordinates are equal iff all three components are equal.
#[derive(Clone, Copy, PartialEq, Eq, Structural, Debug, Hash)]
pub struct GridCoord {
    pub x: i32,
    pub y: i32,
    pub z: i32,
}

/// Orientation of a placed block. Blocks are currently always axis
/// aligned, so the identity is the only orientation.
#[derive(Clone, Copy, PartialEq, Eq, Structural, Debug)]
pub enum Orientation {
    Identity,
}

/// A placed block: its world position (one world unit per grid step,
/// so the position equals the coordinate) and its orientation.
#[derive(Clone, Copy, PartialEq, Eq, Structural, Debug)]
pub struct Block {
    pub px: i64,
    pub py: i64,
    pub pz: i64,
    pub orientation: Orientation,
}

/// Step between the centres of two adjacent ground-plane blocks.
pub const GROUND_SPACING: i32 = 2;

/// The block that belongs at a coordinate: position equal to the
/// coordinate, identity orientation.
pub open spec fn block_at(c: GridCoord) -> Block {
    Block {
        px: c.x as i64,
        py: c.y as i64,
        pz: c.z as i64,
        orientation: Orientation::Identity,
    }
}

/// No two entries of the sequence share a coordinate.
pub open spec fn distinct_keys(s: Seq<(GridCoord, Block)>) -> bool {
    forall|i: int, j: int|
        0 <= i < j < s.len() ==> (#[trigger] s[i]).0 != (#[trigger] s[j]).0
}

/// The mapping held by a sequence of (coordinate, block) entries; a
/// later entry for the same coordinate wins.
pub open spec fn map_of(s: Seq<(GridCoord, Block)>) -> Map<GridCoord, Block>
    decreases s.len(),
{
    if s.len() == 0 {
        Map::empty()
    } else {
        map_of(s.drop_last()).insert(s.last().0, s.last().1)
    }
}

proof fn lemma_map_of_contains(s: Seq<(GridCoord, Block)>, c: GridCoord)
    ensures
        map_of(s).contains_key(c) <==> exists|i: int|
            0 <= i < s.len() && (#[trigger] s[i]).0 == c,
    decreases s.len(),
{
    if s.len() > 0 {
        let pre = s.drop_last();
        lemma_map_of_contains(pre, c);
        if s.last().0 == c {
            assert((#[trigger] s[s.len() - 1]).0 == c);
        } else {
            if map_of(s).contains_key(c) {
                let i = choose|i: int| 0 <= i < pre.len() && (#[trigger] pre[i]).0 == c;
                assert((#[trigger] s[i]).0 == c);
            }
            if exists|i: int| 0 <= i < s.len() && (#[trigger] s[i]).0 == c {
                let i = choose|i: int| 0 <= i < s.len() && (#[trigger] s[i]).0 == c;
                assert(i < s.len() - 1);
                assert((#[trigger] pre[i]).0 == c);
            }
        }
    }
}

proof fn lemma_map_of_index(s: Seq<(GridCoord, Block)>, i: int)
    requires
        distinct_keys(s),
        0 <= i < s.len(),
    ensures
        map_of(s).contains_key(s[i].0),
        map_of(s)[s[i].0] == s[i].1,
    decreases s.len(),
{
    let pre = s.drop_last();
    if i == s.len() - 1 {
    } else {
        assert(distinct_keys(pre)) by {
            assert(forall|a: int| 0 <= a < pre.len() ==> pre[a] == s[a]);
        }
        lemma_map_of_index(pre, i);
        assert(s[i].0 != s.last().0);
    }
}

proof fn lemma_map_of_push(s: Seq<(GridCoord, Block)>, e: (GridCoord, Block))
    ensures
        map_of(s.push(e)) == map_of(s).insert(e.0, e.1),
{
    assert(s.push(e).drop_last() =~= s);
    assert(s.push(e).last() == e);
}

proof fn lemma_map_of_update(s: Seq<(GridCoord, Block)>, i: int, e: (GridCoord, Block))
    requires
        distinct_keys(s),
        0 <= i < s.len(),
        s[i].0 == e.0,
    ensures
        map_of(s.update(i, e)) == map_of(s).insert(e.0, e.1),
        distinct_keys(s.update(i, e)),
    decreases s.len(),
{
    let pre = s.drop_last();
    assert(distinct_keys(pre)) by {
        assert(forall|a: int| 0 <= a < pre.len() ==> pre[a] == s[a]);
    }
    if i == s.len() - 1 {
        assert(s.update(i, e).drop_last() =~= pre);
        assert(s.update(i, e).last() == e);
        assert(map_of(s.update(i, e)) == map_of(pre).insert(e.0, e.1));
        assert(map_of(pre).insert(s[i].0, s[i].1).insert(e.0, e.1) =~= map_of(pre).insert(e.0, e.1));
    } else {
        lemma_map_of_update(pre, i, e);
        assert(s.update(i, e).drop_last() =~= pre.update(i, e));
        assert(s.update(i, e).last() == s.last());
        assert(s.last().0 != e.0);
        assert(map_of(pre).insert(e.0, e.1).insert(s.last().0, s.last().1)
            =~= map_of(pre).insert(s.last().0, s.last().1).insert(e.0, e.1));
        assert(distinct_keys(s.update(i, e))) by {
            let t = s.update(i, e);
            assert(forall|a: int, b: int|
                0 <= a < b < t.len() ==> (#[trigger] t[a]).0 != (#[trigger] t[b]).0) by {
                assert(forall|a: int| 0 <= a < t.len() && a != i ==> t[a] == s[a]);
                assert(t[i] == e);
            }
        }
    }
}

proof fn lemma_map_of_remove(s: Seq<(GridCoord, Block)>, i: int)
    requires
        distinct_keys(s),
        0 <= i < s.len(),
    ensures
        map_of(s.remove(i)) == map_of(s).remove(s[i].0),
        distinct_keys(s.remove(i)),
    decreases s.len(),
{
    let pre = s.drop_last();
    assert(distinct_keys(pre)) by {
        assert(forall|a: int| 0 <= a < pre.len() ==> pre[a] == s[a]);
    }
    if i == s.len() - 1 {
        assert(s.remove(i) =~= pre);
        lemma_map_of_contains(pre, s[i].0);
        assert(forall|a: int| 0 <= a < pre.len() ==> (#[trigger] pre[a]).0 != s[i].0);
        assert(!map_of(pre).contains_key(s[i].0));
        assert(map_of(pre).insert(s[i].0, s[i].1).remove(s[i].0) =~= map_of(pre));
    } else {
        lemma_map_of_remove(pre, i);
        assert(s.remove(i).drop_last() =~= pre.remove(i));
        assert(s.remove(i).last() == s.last());
        assert(s.last().0 != s[i].0);
        assert(map_of(pre).remove(s[i].0).insert(s.last().0, s.last().1)
            =~= map_of(pre).insert(s.last().0, s.last().1).remove(s[i].0));
        assert(distinct_keys(s.remove(i))) by {
            let t = s.remove(i);
            assert(forall|a: int, b: int|
                0 <= a < b < t.len() ==> (#[trigger] t[a]).0 != (#[trigger] t[b]).0) by {
                assert(forall|a: int| 0 <= a < t.len() ==>
                    #[trigger] t[a] == if a < i { s[a] } else { s[a + 1] });
            }
        }
    }
}

/// A coordinate of the initial ground plane of the given extent: some
/// row i and column k below the extent, at twice their index (the
/// ground spacing) and height zero.
pub open spec fn on_ground_plane(c: GridCoord, extent: u32) -> bool {
    exists|i: int, k: int|
        #![trigger spread(i), spread(k)]
        0 <= i < extent && 0 <= k < extent
            && c.y == 0 && c.x as int == spread(i) && c.z as int == spread(k)
}

/// Twice the index: the world-unit offset of a ground-plane row.
pub open spec fn spread(i: int) -> int {
    2 * i
}

/// Coordinates covered while the ground plane is being built: the first
/// `x` full rows, then `z` entries of row `x`.
spec fn plane_prefix(c: GridCoord, extent: u32, x: int, z: int) -> bool {
    exists|i: int, k: int|
        #![trigger spread(i), spread(k)]
        ((0 <= i < x && 0 <= k < extent) || (i == x && 0 <= k < z))
            && c.y == 0 && c.x as int == spread(i) && c.z as int == spread(k)
}

/// The sparse world: a mapping from grid coordinate to block. A
/// coordinate is present iff a block exists there.
pub struct World {
    entries: Vec<(GridCoord, Block)>,
}

impl View for World {
    type V = Map<GridCoord, Block>;

    closed spec fn view(&self) -> Map<GridCoord, Block> {
        map_of(self.entries@)
    }
}

impl World {
    /// Keys are unique: each coordinate is stored at most once.
    pub closed spec fn wf(&self) -> bool {
        distinct_keys(self.entries@)
    }

    /// Number of blocks currently present.
    pub closed spec fn size(&self) -> nat {
        self.entries@.len()
    }

    /// A fresh world holding the initial ground plane: an extent-by-extent
    /// grid of blocks at height zero, spaced two units apart.
    #[verifier::loop_isolation(false)]
    pub fn new(extent: u32) -> (w: World)
        requires
            extent <= 1000,
        ensures
            w.wf(),
            w.size() == (extent as nat) * (extent as nat),
            forall|c: GridCoord| w@.contains_key(c) <==> on_ground_plane(c, extent),
            forall|c: GridCoord| #[trigger] w@.contains_key(c) ==> w@[c] == block_at(c),
    {
        let mut entries: Vec<(GridCoord, Block)> = Vec::new();
        let mut x: u32 = 0;
        while x < extent
            invariant
                x <= extent,
                distinct_keys(entries@),
                entries@.len() == (x as int) * (extent as int),
                forall|c: GridCoord|
                    #[trigger] map_of(entries@).contains_key(c) <==> plane_prefix(c, extent, x as int, 0),
                forall|c: GridCoord| #[trigger] map_of(entries@).contains_key(c)
                    ==> map_of(entries@)[c] == block_at(c),
            decreases extent - x,
        {
            let mut z: u32 = 0;
            while z < extent
                invariant
                    z <= extent,
                    distinct_keys(entries@),
                    entries@.len() == (x as int) * (extent as int) + (z as int),
                    forall|c: GridCoord|
                        #[trigger] map_of(entries@).contains_key(c) <==> plane_prefix(c, extent, x as int, z as int),
                    forall|c: GridCoord| #[trigger] map_of(entries@).contains_key(c)
                        ==> map_of(entries@)[c] == block_at(c),
                decreases extent - z,
            {
                let coord = GridCoord {
                    x: GROUND_SPACING * (x as i32),
                    y: 0,
                    z: GROUND_SPACING * (z as i32),
                };
                let block = Block {
                    px: coord.x as i64,
                    py: coord.y as i64,
                    pz: coord.z as i64,
                    orientation: Orientation::Identity,
                };
                proof {
                    assert(block == block_at(coord));
                    assert(!plane_prefix(coord, extent, x as int, z as int)) by {
                        if plane_prefix(coord, extent, x as int, z as int) {
                            let (i, k) = choose|i: int, k: int|
                                #![trigger spread(i), spread(k)]
                                ((0 <= i < x as int && 0 <= k < extent) || (i == x as int && 0 <= k < z as int))
                                    && coord.y == 0 && coord.x as int == spread(i)
                                    && coord.z as int == spread(k);
                            assert(i == x as int && k == z as int);
                        }
                    }
                    lemma_map_of_contains(entries@, coord);
                    assert(forall|a: int| 0 <= a < entries@.len()
                        ==> (#[trigger] entries@[a]).0 != coord);
                    lemma_map_of_push(entries@, (coord, block));
                    assert(distinct_keys(entries@.push((coord, block)))) by {
                        let t = entries@.push((coord, block));
                        assert(forall|a: int| 0 <= a < entries@.len() ==> t[a] == entries@[a]);
                        assert(t[t.len() - 1] == (coord, block));
                    }
                    assert forall|c: GridCoord|
                        #[trigger] map_of(entries@).insert(coord, block).contains_key(c)
                            <==> plane_prefix(c, extent, x as int, z as int + 1) by {
                        if map_of(entries@).insert(coord, block).contains_key(c) {
                            if c == coord {
                                assert(coord.x as int == spread(x as int));
                                assert(coord.z as int == spread(z as int));
                                assert(plane_prefix(c, extent, x as int, z as int + 1));
                            } else {
                                assert(plane_prefix(c, extent, x as int, z as int));
                                let (i, k) = choose|i: int, k: int|
                                    #![trigger spread(i), spread(k)]
                                    ((0 <= i < x as int && 0 <= k < extent) || (i == x as int && 0 <= k < z as int))
                                        && c.y == 0 && c.x as int == spread(i)
                                        && c.z as int == spread(k);
                                assert(plane_prefix(c, extent, x as int, z as int + 1));
                            }
                        }
                        if plane_prefix(c, extent, x as int, z as int + 1) {
                            let (i, k) = choose|i: int, k: int|
                                #![trigger spread(i), spread(k)]
                                ((0 <= i < x as int && 0 <= k < extent) || (i == x as int && 0 <= k < z as int + 1))
                                    && c.y == 0 && c.x as int == spread(i)
                                    && c.z as int == spread(k);
                            if i == x as int && k == z as int {
                                assert(c == coord);
                            } else {
                                assert(plane_prefix(c, extent, x as int, z as int));
                            }
                        }
                    }
                }
                entries.push((coord, block));
                z = z + 1;
            }
            proof {
                assert((x as int) * (extent as int) + (extent as int)
                    == (x as int + 1) * (extent as int)) by (nonlinear_arith);
                assert forall|c: GridCoord|
                    #[trigger] map_of(entries@).contains_key(c)
                        <==> plane_prefix(c, extent, x as int + 1, 0) by {
                    if map_of(entries@).contains_key(c) {
                        assert(plane_prefix(c, extent, x as int, extent as int));
                        let (i, k) = choose|i: int, k: int|
                            #![trigger spread(i), spread(k)]
                            ((0 <= i < x as int && 0 <= k < extent) || (i == x as int && 0 <= k < extent as int))
                                && c.y == 0 && c.x as int == spread(i)
                                && c.z as int == spread(k);
                        assert(0 <= i < x as int + 1 && 0 <= k < extent);
                        assert(plane_prefix(c, extent, x as int + 1, 0));
                    }
                    if plane_prefix(c, extent, x as int + 1, 0) {
                        let (i, k) = choose|i: int, k: int|
                            #![trigger spread(i), spread(k)]
                            ((0 <= i < x as int + 1 && 0 <= k < extent) || (i == x as int + 1 && 0 <= k < 0))
                                && c.y == 0 && c.x as int == spread(i)
                                && c.z as int == spread(k);
                        if i < x as int {
                            assert(plane_prefix(c, extent, x as int, extent as int));
                        } else {
                            assert(i == x as int);
                            assert(plane_prefix(c, extent, x as int, extent as int));
                        }
                    }
                }
            }
            x = x + 1;
        }
        proof {
            assert forall|c: GridCoord|
                #[trigger] map_of(entries@).contains_key(c) <==> on_ground_plane(c, extent) by {
                if map_of(entries@).contains_key(c) {
                    assert(plane_prefix(c, extent, extent as int, 0));
                    let (i, k) = choose|i: int, k: int|
                        #![trigger spread(i), spread(k)]
                        ((0 <= i < extent as int && 0 <= k < extent) || (i == extent as int && 0 <= k < 0))
                            && c.y == 0 && c.x as int == spread(i)
                            && c.z as int == spread(k);
                    assert(on_ground_plane(c, extent));
                }
                if on_ground_plane(c, extent) {
                    let (i, k) = choose|i: int, k: int|
                        #![trigger spread(i), spread(k)]
                        0 <= i < extent && 0 <= k < extent
                            && c.y == 0 && c.x as int == spread(i) && c.z as int == spread(k);
                    assert(plane_prefix(c, extent, extent as int, 0));
                }
            }
        }
        World { entries }
    }

    /// How many blocks the registry currently holds.
    pub fn len(&self) -> (n: usize)
        ensures
            n == self.size(),
    {
        self.entries.len()
    }

    /// Whether a block currently exists at the coordinate.
    #[verifier::loop_isolation(false)]
    pub fn contains(&self, coords: GridCoord) -> (r: bool)
        ensures
            r == self@.contains_key(coords),
    {
        proof {
            lemma_map_of_contains(self.entries@, coords);
        }
        let n = self.entries.len();
        let mut i: usize = 0;
        while i < n
            invariant
                i <= n,
                forall|j: int| 0 <= j < i ==> (#[trigger] self.entries@[j]).0 != coords,
            decreases n - i,
        {
            if self.entries[i].0 == coords {
                proof {
                    assert((#[trigger] self.entries@[i as int]).0 == coords);
                }
                return true;
            }
            i = i + 1;
        }
        proof {
            if self@.contains_key(coords) {
                let j = choose|j: int|
                    0 <= j < self.entries@.len() && (#[trigger] self.entries@[j]).0 == coords;
                assert(false);
            }
        }
        false
    }

    /// Index of the entry holding the coordinate, if any.
    #[verifier::loop_isolation(false)]
    fn find(&self, coords: GridCoord) -> (r: Option<usize>)
        ensures
            match r {
                Some(i) => i < self.entries@.len() && self.entries@[i as int].0 == coords
                    && self@.contains_key(coords),
                None => !self@.contains_key(coords),
            },
    {
        proof {
            lemma_map_of_contains(self.entries@, coords);
        }
        let n = self.entries.len();
        let mut i: usize = 0;
        while i < n
            invariant
                i <= n,
                forall|j: int| 0 <= j < i ==> (#[trigger] self.entries@[j]).0 != coords,
            decreases n - i,
        {
            if self.entries[i].0 == coords {
                proof {
                    assert((#[trigger] self.entries@[i as int]).0 == coords);
                }
                return Some(i);
            }
            i = i + 1;
        }
        proof {
            if self@.contains_key(coords) {
                let j = choose|j: int|
                    0 <= j < self.entries@.len() && (#[trigger] self.entries@[j]).0 == coords;
                assert(false);
            }
        }
        None
    }

    /// Insert a block at the coordinate, position equal to the
    /// coordinate, identity orientation. Placing at an occupied
    /// coordinate overwrites the block there and leaves the size of
    /// the registry unchanged; it is not an error.
    pub fn place(&mut self, coords: GridCoord)
        requires
            old(self).wf(),
        ensures
            final(self).wf(),
            final(self)@ == old(self)@.insert(coords, block_at(coords)),
            old(self)@.contains_key(coords) ==> final(self).size() == old(self).size(),
            !old(self)@.contains_key(coords) ==> final(self).size() == old(self).size() + 1,
    {
        let block = Block {
            px: coords.x as i64,
            py: coords.y as i64,
            pz: coords.z as i64,
            orientation: Orientation::Identity,
        };
        proof {
            assert(block == block_at(coords));
        }
        match self.find(coords) {
            Some(i) => {
                proof {
                    lemma_map_of_update(self.entries@, i as int, (coords, block));
                }
                self.entries.set(i, (coords, block));
            }
            None => {
                proof {
                    lemma_map_of_contains(self.entries@, coords);
                    assert(forall|a: int| 0 <= a < self.entries@.len()
                        ==> (#[trigger] self.entries@[a]).0 != coords);
                    lemma_map_of_push(self.entries@, (coords, block));
                    assert(distinct_keys(self.entries@.push((coords, block)))) by {
                        let s = self.entries@;
                        let t = s.push((coords, block));
                        assert(forall|a: int| 0 <= a < s.len() ==> t[a] == s[a]);
                        assert(t[t.len() - 1] == (coords, block));
                    }
                }
                self.entries.push((coords, block));
            }
        }
    }

    /// Remove the block at the coordinate if one is present. Destroying
    /// an absent coordinate is a silent no-op: size and membership are
    /// left identical.
    pub fn destroy(&mut self, coords: GridCoord)
        requires
            old(self).wf(),
        ensures
            final(self).wf(),
            final(self)@ == old(self)@.remove(coords),
            old(self)@.contains_key(coords) ==> final(self).size() + 1 == old(self).size(),
            !old(self)@.contains_key(coords) ==> final(self).size() == old(self).size()
                && final(self)@ == old(self)@,
    {
        match self.find(coords) {
            Some(i) => {
                proof {
                    lemma_map_of_remove(self.entries@, i as int);
                }
                self.entries.remove(i);
            }
            None => {
                proof {
                    assert(self@.remove(coords) =~= self@);
                }
            }
        }
    }

    /// Read-only snapshot of the present blocks, for rendering. Every
    /// entry is a (coordinate, block) pair of the registry, and every
    /// present coordinate appears exactly once.
    pub fn blocks(&self) -> (r: &Vec<(GridCoord, Block)>)
        requires
            self.wf(),
        ensures
            r@.len() == self.size(),
            distinct_keys(r@),
            forall|i: int| 0 <= i < r@.len()
                ==> self@.contains_key((#[trigger] r@[i]).0) && self@[r@[i].0] == r@[i].1,
            forall|c: GridCoord| #[trigger] self@.contains_key(c)
                ==> exists|i: int| 0 <= i < r@.len() && (#[trigger] r@[i]).0 == c,
    {
        proof {
            assert forall|i: int| 0 <= i < self.entries@.len()
                implies self@.contains_key((#[trigger] self.entries@[i]).0)
                    && self@[self.entries@[i].0] == self.entries@[i].1 by {
                lemma_map_of_index(self.entries@, i);
            }
            assert forall|c: GridCoord| #[trigger] self@.contains_key(c)
                implies exists|i: int| 0 <= i < self.entries@.len()
                    && (#[trigger] self.entries@[i]).0 == c by {
                lemma_map_of_contains(self.entries@, c);
            }
        }
        &self.entries
    }
}

/// After a block is placed at a coordinate, the registry contains that
/// coordinate.
pub proof fn lemma_place_then_contains(v: Map<GridCoord, Block>, c: GridCoord, b: Block)
    ensures
        v.insert(c, b).contains_key(c),
{
}

/// After the block at a coordinate is destroyed, the registry no longer
/// contains that coordinate.
pub proof fn lemma_destroy_then_absent(v: Map<GridCoord, Block>, c: GridCoord)
    ensures
        !v.remove(c).contains_key(c),
{
}

/// Destroying an absent coordinate leaves the registry mapping
/// unchanged: membership and stored blocks are identical.
pub proof fn lemma_destroy_absent_noop(v: Map<GridCoord, Block>, c: GridCoord)
    requires
        !v.contains_key(c),
    ensures
        v.remove(c) == v,
{
    assert(v.remove(c) =~= v);
}

/// Placing at an occupied coordinate keeps the set of present
/// coordinates unchanged and overwrites the stored block.
pub proof fn lemma_place_occupied(v: Map<GridCoord, Block>, c: GridCoord, b: Block)
    requires
        v.contains_key(c),
    ensures
        v.insert(c, b).dom() == v.dom(),
        v.insert(c, b)[c] == b,
{
    assert(v.insert(c, b).dom() =~= v.dom());
}

} // verus!
