//! Tile-based parallel rendering: the screen is cut into 64x64 tiles that the
//! rasterizer cores take one by one; each tile has a bin of the triangles that
//! overlap it.

use vstd::prelude::*;
use vstd::arithmetic::div_mod::{
    lemma_fundamental_div_mod, lemma_fundamental_div_mod_converse_div,
    lemma_fundamental_div_mod_converse_mod,
};

verus! {

/// Tile size in pixels (64x64 fits in L1 cache).
pub const TILE_SIZE: usize = 64;

/// Maximum triangles per frame.
pub const MAX_TRIANGLES_PER_FRAME: usize = 32768;

/// Maximum triangles per tile bin.
pub const MAX_TRIANGLES_PER_TILE: usize = 512;

/// Maximum number of tiles (25 x 20 tiles cover 1600x1200).
pub const MAX_TILES: usize = 512;

/// Per-tile bin of triangle indices with a slot counter: the counter is
/// advanced on every add (wrapping at 2^16) and the index is stored only while
/// a slot is free.
pub struct TileBinLockFree {
    indices: Vec<u16>,
    count: u16,
}

impl TileBinLockFree {
    /// Stored slots (always `MAX_TRIANGLES_PER_TILE` of them).
    pub closed spec fn slots(self) -> Seq<u16> {
        self.indices@
    }

    /// Value of the slot counter.
    pub closed spec fn counter(self) -> u16 {
        self.count
    }

    /// Number of valid entries: the counter, capped at the bin's capacity.
    pub open spec fn spec_len(self) -> int {
        if self.counter() < MAX_TRIANGLES_PER_TILE {
            self.counter() as int
        } else {
            MAX_TRIANGLES_PER_TILE as int
        }
    }

    /// The triangle indices in the bin, in the order they were added.
    pub open spec fn entries(self) -> Seq<u16> {
        self.slots().take(self.spec_len())
    }

    /// The slot table has its full size.
    pub closed spec fn wf(self) -> bool {
        self.indices@.len() == MAX_TRIANGLES_PER_TILE
    }

    /// `new` is `old` after adding `idx`: the counter advances (wrapping) and the
    /// index is stored in the slot the counter pointed at, if that slot exists.
    pub open spec fn added(old: Self, new: Self, idx: u16) -> bool {
        &&& new.wf()
        &&& new.counter() == old.counter().wrapping_add(1)
        &&& new.slots() == if old.counter() < MAX_TRIANGLES_PER_TILE {
            old.slots().update(old.counter() as int, idx)
        } else {
            old.slots()
        }
    }

    /// Same counter and slots.
    pub open spec fn same(a: Self, b: Self) -> bool {
        &&& a.wf() == b.wf()
        &&& a.counter() == b.counter()
        &&& a.slots() == b.slots()
    }

    /// An empty bin.
    pub fn new() -> (r: Self)
        ensures
            r.wf(),
            r.counter() == 0,
            r.entries() == Seq::<u16>::empty(),
            r.entries().len() == r.spec_len(),
    {
        let mut indices: Vec<u16> = Vec::new();
        let mut i: usize = 0;
        while i < MAX_TRIANGLES_PER_TILE
            invariant
                i <= MAX_TRIANGLES_PER_TILE,
                indices@.len() == i,
            decreases MAX_TRIANGLES_PER_TILE - i,
        {
            indices.push(0);
            i = i + 1;
        }
        TileBinLockFree { indices, count: 0 }
    }

    /// Add a triangle index; true if it was stored, false if the bin is full
    /// (the triangle is dropped).
    pub fn add(&mut self, triangle_idx: u16) -> (r: bool)
        requires
            old(self).wf(),
        ensures
            Self::added(*old(self), *final(self), triangle_idx),
            r == (old(self).counter() < MAX_TRIANGLES_PER_TILE),
            r ==> final(self).entries() == old(self).entries().push(triangle_idx),
            final(self).entries().len() == final(self).spec_len(),
    {
        let slot = self.count as usize;
        self.count = self.count.wrapping_add(1);
        if slot < MAX_TRIANGLES_PER_TILE {
            self.indices.set(slot, triangle_idx);
            assert(self.entries() =~= old(self).entries().push(triangle_idx));
            true
        } else {
            false
        }
    }

    /// Number of triangles in the bin.
    pub fn len(&self) -> (r: usize)
        ensures
            r == self.spec_len(),
            self.wf() ==> self.entries().len() == r,
    {
        let c = self.count as usize;
        if c < MAX_TRIANGLES_PER_TILE {
            c
        } else {
            MAX_TRIANGLES_PER_TILE
        }
    }

    /// The triangle index at position `idx`, if there is one.
    pub fn get(&self, idx: usize) -> (r: Option<u16>)
        requires
            self.wf(),
        ensures
            r == if idx < self.spec_len() { Some(self.entries()[idx as int]) } else { None },
            self.entries().len() == self.spec_len(),
    {
        if idx < self.len() {
            Some(self.indices[idx])
        } else {
            None
        }
    }

    /// Empty the bin for the next frame.
    pub fn clear(&mut self)
        ensures
            final(self).wf() == old(self).wf(),
            final(self).slots() == old(self).slots(),
            final(self).counter() == 0,
            final(self).entries() == Seq::<u16>::empty(),
    {
        self.count = 0;
    }
}

/// A bin returns, at each position below its length, the index added there
/// since it was last cleared: adding to a bin with a free slot and reading the
/// new last position gives the added index, and the earlier positions keep theirs.
pub proof fn lemma_bin_add_then_get(old_bin: TileBinLockFree, new_bin: TileBinLockFree, idx: u16)
    requires
        old_bin.wf(),
        TileBinLockFree::added(old_bin, new_bin, idx),
        old_bin.counter() < MAX_TRIANGLES_PER_TILE,
    ensures
        new_bin.spec_len() == old_bin.spec_len() + 1,
        new_bin.entries()[old_bin.spec_len()] == idx,
        forall|i: int| 0 <= i < old_bin.spec_len() ==> new_bin.entries()[i] == old_bin.entries()[i],
{
}

/// A bin cleared and then given `idxs` one by one keeps, in order, the first
/// 512 of them: its count is the number given (the 16-bit counter does not
/// wrap within 65535 adds), and its entries are the first
/// `min(count, MAX_TRIANGLES_PER_TILE)` indices given.
pub proof fn lemma_bin_after_adds(states: Seq<TileBinLockFree>, idxs: Seq<u16>)
    requires
        states.len() == idxs.len() + 1,
        idxs.len() <= 65535,
        states[0].wf(),
        states[0].counter() == 0,
        forall|j: int| 0 <= j < idxs.len() ==> #[trigger] TileBinLockFree::added(states[j], states[j + 1], idxs[j]),
    ensures
        states[idxs.len() as int].wf(),
        states[idxs.len() as int].counter() == idxs.len(),
        states[idxs.len() as int].entries() == idxs.take(states[idxs.len() as int].spec_len()),
        states[idxs.len() as int].spec_len() == if idxs.len() < MAX_TRIANGLES_PER_TILE { idxs.len() as int } else { MAX_TRIANGLES_PER_TILE as int },
    decreases idxs.len(),
{
    let k = idxs.len() as int;
    if k > 0 {
        let sp = states.take(k);
        let ip = idxs.take(k - 1);
        assert forall|j: int| 0 <= j < ip.len() implies #[trigger] TileBinLockFree::added(sp[j], sp[j + 1], ip[j]) by {
            assert(TileBinLockFree::added(states[j], states[j + 1], idxs[j]));
        }
        lemma_bin_after_adds(sp, ip);
        let before = states[k - 1];
        let after = states[k];
        assert(sp[k - 1] == before);
        assert(TileBinLockFree::added(before, after, idxs[k - 1]));
        assert(before.wf());
        assert(before.counter() == k - 1);
        assert(after.counter() == k) by {
            assert(before.counter() < 65535);
        }
        if k - 1 < MAX_TRIANGLES_PER_TILE {
            assert(before.entries() == ip.take(before.spec_len()));
            assert(ip.take(before.spec_len()) =~= ip);
            assert(after.entries() =~= before.entries().push(idxs[k - 1]));
            assert(idxs.take(k) =~= ip.push(idxs[k - 1]));
        } else {
            assert(after.entries() =~= before.entries());
            assert(idxs.take(after.spec_len()) =~= ip.take(before.spec_len()));
        }
    } else {
        assert(states[0].entries() =~= idxs.take(0));
    }
}

/// The frame storage after `n` triangles were offered from a new frame: it
/// holds `min(n, MAX_TRIANGLES_PER_FRAME)` of them, the first ones in order;
/// each offer below the capacity got its position back and the rest `None`.
pub proof fn lemma_storage_after_adds<T: Copy>(states: Seq<TriangleStorage<T>>, tris: Seq<T>, rs: Seq<Option<u16>>)
    requires
        states.len() == tris.len() + 1,
        rs.len() == tris.len(),
        states[0].wf(),
        states[0].counter() == 0,
        forall|j: int| 0 <= j < tris.len() ==> #[trigger] TriangleStorage::stored(states[j], tris[j], rs[j], states[j + 1]),
    ensures
        states[tris.len() as int].counter() == if tris.len() < MAX_TRIANGLES_PER_FRAME { tris.len() as int } else { MAX_TRIANGLES_PER_FRAME as int },
        forall|i: int| 0 <= i < states[tris.len() as int].counter() ==> #[trigger] states[tris.len() as int].slots()[i] == tris[i],
        forall|i: int| 0 <= i < rs.len() ==> #[trigger] rs[i] == if i < MAX_TRIANGLES_PER_FRAME { Some(i as u16) } else { None },
    decreases tris.len(),
{
    let k = tris.len() as int;
    if k > 0 {
        let sp = states.take(k);
        let tp = tris.take(k - 1);
        let rp = rs.take(k - 1);
        assert forall|j: int| 0 <= j < tp.len() implies #[trigger] TriangleStorage::stored(sp[j], tp[j], rp[j], sp[j + 1]) by {
            assert(TriangleStorage::stored(states[j], tris[j], rs[j], states[j + 1]));
        }
        lemma_storage_after_adds(sp, tp, rp);
        assert(sp[k - 1] == states[k - 1]);
        let j = k - 1;
        assert(TriangleStorage::stored(states[j], tris[j], rs[j], states[j + 1]));
        assert(states[j + 1] == states[k]);
        assert forall|i: int| 0 <= i < states[k].counter() implies #[trigger] states[k].slots()[i] == tris[i] by {
            if i < k - 1 && i < states[k - 1].counter() {
                assert(sp[k - 1].slots()[i] == tp[i]);
            }
        }
        assert forall|i: int| 0 <= i < rs.len() implies #[trigger] rs[i] == if i < MAX_TRIANGLES_PER_FRAME { Some(i as u16) } else { None } by {
            if i < k - 1 {
                assert(rp[i] == rs[i]);
            }
        }
    }
}

/// Per-frame triangle storage: the triangles stored this frame, at most
/// `MAX_TRIANGLES_PER_FRAME`, and how many there are.
pub struct TriangleStorage<T> {
    slots: Vec<T>,
    count: usize,
}

impl<T: Copy> TriangleStorage<T> {
    /// The stored triangles (slots ever written, up to `MAX_TRIANGLES_PER_FRAME`).
    pub closed spec fn slots(self) -> Seq<T> {
        self.slots@
    }

    /// Number of triangles stored this frame.
    pub closed spec fn counter(self) -> usize {
        self.count
    }

    /// At most a frame's worth of triangles, each stored in a written slot.
    pub closed spec fn wf(self) -> bool {
        &&& self.slots@.len() <= MAX_TRIANGLES_PER_FRAME
        &&& self.count <= self.slots@.len()
    }

    /// An empty storage.
    pub fn new() -> (r: Self)
        ensures
            r.wf(),
            r.counter() == 0,
    {
        TriangleStorage { slots: Vec::new(), count: 0 }
    }

    /// `after` is `before` once `tri` was offered, with result `r`: below the
    /// capacity it is stored at the next position, which `r` reports, and the
    /// count goes up; at the capacity it is dropped; earlier triangles stay.
    pub open spec fn stored(before: Self, tri: T, r: Option<u16>, after: Self) -> bool {
        &&& after.wf()
        &&& r == if before.counter() < MAX_TRIANGLES_PER_FRAME { Some(before.counter() as u16) } else { None }
        &&& after.counter() == if before.counter() < MAX_TRIANGLES_PER_FRAME { before.counter() + 1 } else { before.counter() as int }
        &&& before.counter() < MAX_TRIANGLES_PER_FRAME ==> after.slots()[before.counter() as int] == tri
        &&& forall|i: int| 0 <= i < before.counter() ==> after.slots()[i] == before.slots()[i]
    }

    /// Store a triangle; its index, or `None` when the frame is full (the
    /// triangle is then dropped and the count stays at the capacity).
    pub fn add(&mut self, tri: T) -> (r: Option<u16>)
        requires
            old(self).wf(),
        ensures
            Self::stored(*old(self), tri, r, *final(self)),
            final(self).wf(),
            final(self).counter() <= MAX_TRIANGLES_PER_FRAME,
            old(self).counter() < MAX_TRIANGLES_PER_FRAME ==> r == Some(old(self).counter() as u16)
                && final(self).counter() == old(self).counter() + 1
                && final(self).slots().len() >= old(self).counter() + 1
                && final(self).slots()[old(self).counter() as int] == tri
                && forall|i: int| 0 <= i < old(self).counter() ==> final(self).slots()[i] == old(self).slots()[i],
            old(self).counter() >= MAX_TRIANGLES_PER_FRAME ==> r is None && final(self).counter() == old(self).counter()
                && final(self).slots() == old(self).slots(),
    {
        let idx = self.count;
        if idx >= MAX_TRIANGLES_PER_FRAME {
            return None;
        }
        self.count = self.count + 1;
        if idx < self.slots.len() {
            self.slots.set(idx, tri);
        } else {
            self.slots.push(tri);
        }
        Some(idx as u16)
    }

    /// The triangle at `idx`, if it was added this frame.
    pub fn get(&self, idx: u16) -> (r: Option<T>)
        requires
            self.wf(),
        ensures
            r == if (idx as int) < self.counter() { Some(self.slots()[idx as int]) } else { None },
    {
        let i = idx as usize;
        if i < self.count {
            Some(self.slots[i])
        } else {
            None
        }
    }

    /// Number of triangles stored this frame.
    pub fn len(&self) -> (r: usize)
        requires
            self.wf(),
        ensures
            r == self.counter(),
            r <= MAX_TRIANGLES_PER_FRAME,
    {
        self.count
    }

    /// Start a new frame.
    pub fn reset(&mut self)
        requires
            old(self).wf(),
        ensures
            final(self).wf(),
            final(self).counter() == 0,
            final(self).slots() == old(self).slots(),
    {
        self.count = 0;
    }
}

/// A screen tile.
#[derive(Debug, Clone, Copy, PartialEq, Eq, Structural)]
pub struct Tile {
    pub x: usize,
    pub y: usize,
    pub width: usize,
    pub height: usize,
}

/// Number of tiles needed to cover `len` pixels.
pub open spec fn tiles_for(len: int) -> int {
    (len + TILE_SIZE - 1) / TILE_SIZE as int
}

/// The tile in column `tx`, row `ty` of a `w` x `h` screen: 64x64, cut at the
/// right and bottom edges.
pub open spec fn tile_spec(w: int, h: int, tx: int, ty: int) -> Tile {
    let x = tx * TILE_SIZE;
    let y = ty * TILE_SIZE;
    Tile {
        x: x as usize,
        y: y as usize,
        width: if w - x < TILE_SIZE { (w - x) as usize } else { TILE_SIZE },
        height: if h - y < TILE_SIZE { (h - y) as usize } else { TILE_SIZE },
    }
}

/// Pixel `(px, py)` lies inside tile `t`.
pub open spec fn tile_contains(t: Tile, px: int, py: int) -> bool {
    t.x <= px < t.x + t.width && t.y <= py < t.y + t.height
}

/// The tiles partition the screen: every pixel lies in the tile of column
/// `px / 64`, row `py / 64`, which is one of the tiles of the grid, and in no other tile.
pub proof fn lemma_tiles_partition_screen(w: int, h: int, px: int, py: int, tx: int, ty: int)
    requires
        0 <= px < w <= usize::MAX,
        0 <= py < h <= usize::MAX,
        0 <= tx < tiles_for(w),
        0 <= ty < tiles_for(h),
    ensures
        px / (TILE_SIZE as int) < tiles_for(w),
        py / (TILE_SIZE as int) < tiles_for(h),
        tile_contains(tile_spec(w, h, px / (TILE_SIZE as int), py / (TILE_SIZE as int)), px, py),
        tile_contains(tile_spec(w, h, tx, ty), px, py) ==> tx == px / (TILE_SIZE as int) && ty == py / (TILE_SIZE as int),
{
    assert(px / 64 < (w + 63) / 64 && py / 64 < (h + 63) / 64) by (nonlinear_arith)
        requires
            0 <= px < w,
            0 <= py < h,
    ;
    assert(px / 64 * 64 <= px < px / 64 * 64 + 64 && py / 64 * 64 <= py < py / 64 * 64 + 64) by (nonlinear_arith)
        requires
            0 <= px,
            0 <= py,
    ;
    assert(tx * 64 < w && ty * 64 < h) by (nonlinear_arith)
        requires
            0 <= tx < (w + 63) / 64,
            0 <= ty < (h + 63) / 64,
    ;
    let t = tile_spec(w, h, tx, ty);
    assert(t.x == tx * 64 && t.y == ty * 64);
    if tile_contains(t, px, py) {
        assert(tx == px / 64 && ty == py / 64) by (nonlinear_arith)
            requires
                tx * 64 <= px < tx * 64 + 64,
                ty * 64 <= py < ty * 64 + 64,
                0 <= tx,
                0 <= ty,
        ;
    }
}

/// Work queue handing out the tiles of the screen, row by row.
pub struct TileWorkQueue {
    tiles: Vec<Tile>,
    next_tile: usize,
}

impl TileWorkQueue {
    /// The tiles in queue order.
    pub closed spec fn tiles(self) -> Seq<Tile> {
        self.tiles@
    }

    /// Position of the next tile to hand out.
    pub closed spec fn next_index(self) -> usize {
        self.next_tile
    }

    /// A queue of the tiles covering a `screen_width` x `screen_height` screen.
    pub fn new(screen_width: usize, screen_height: usize) -> (r: Self)
        requires
            screen_width + TILE_SIZE <= usize::MAX,
            screen_height + TILE_SIZE <= usize::MAX,
        ensures
            r.next_index() == 0,
            r.tiles().len() == tiles_for(screen_width as int) * tiles_for(screen_height as int),
            forall|tx: int, ty: int|
                0 <= tx < tiles_for(screen_width as int) && 0 <= ty < tiles_for(screen_height as int)
                    ==> #[trigger] r.tiles()[ty * tiles_for(screen_width as int) + tx]
                    == tile_spec(screen_width as int, screen_height as int, tx, ty),
    {
        let tiles_x = (screen_width + TILE_SIZE - 1) / TILE_SIZE;
        let tiles_y = (screen_height + TILE_SIZE - 1) / TILE_SIZE;
        let ghost w = screen_width as int;
        let ghost h = screen_height as int;
        let mut tiles: Vec<Tile> = Vec::new();
        let mut ty: usize = 0;
        while ty < tiles_y
            invariant
                tiles_x == tiles_for(w),
                tiles_y == tiles_for(h),
                w == screen_width,
                h == screen_height,
                ty <= tiles_y,
                tiles@.len() == ty * tiles_x,
                forall|px: int, py: int| 0 <= px < tiles_x && 0 <= py < ty
                    ==> #[trigger] tiles@[py * tiles_x + px] == tile_spec(w, h, px, py),
            decreases tiles_y - ty,
        {
            let mut tx: usize = 0;
            assert(ty * TILE_SIZE < screen_height) by (nonlinear_arith)
                requires
                    ty < tiles_y,
                    tiles_y == (screen_height + TILE_SIZE - 1) / TILE_SIZE as int,
            ;
            let y = ty * TILE_SIZE;
            while tx < tiles_x
                invariant
                    tiles_x == tiles_for(w),
                    tiles_y == tiles_for(h),
                    w == screen_width,
                    h == screen_height,
                    ty < tiles_y,
                    y == ty * TILE_SIZE,
                    y < screen_height,
                    tx <= tiles_x,
                    tiles@.len() == ty * tiles_x + tx,
                    forall|px: int, py: int| 0 <= px < tiles_x && 0 <= py < ty
                        ==> #[trigger] tiles@[py * tiles_x + px] == tile_spec(w, h, px, py),
                    forall|px: int| 0 <= px < tx ==> #[trigger] tiles@[ty * tiles_x + px] == tile_spec(w, h, px, ty as int),
                decreases tiles_x - tx,
            {
                assert(tx * TILE_SIZE < screen_width) by (nonlinear_arith)
                    requires
                        tx < tiles_x,
                        tiles_x == (screen_width + TILE_SIZE - 1) / TILE_SIZE as int,
                ;
                let x = tx * TILE_SIZE;
                let width = if screen_width - x < TILE_SIZE { screen_width - x } else { TILE_SIZE };
                let height = if screen_height - y < TILE_SIZE { screen_height - y } else { TILE_SIZE };
                let ghost before = tiles@;
                tiles.push(Tile { x, y, width, height });
                assert forall|px: int, py: int| 0 <= px < tiles_x && 0 <= py < ty
                    implies #[trigger] tiles@[py * tiles_x + px] == tile_spec(w, h, px, py) by {
                    assert(py * tiles_x + px < ty * tiles_x) by (nonlinear_arith)
                        requires
                            0 <= px < tiles_x,
                            0 <= py < ty,
                    ;
                    assert(tiles@[py * tiles_x + px] == before[py * tiles_x + px]);
                }
                tx = tx + 1;
            }
            assert forall|px: int, py: int| 0 <= px < tiles_x && 0 <= py < ty + 1
                implies #[trigger] tiles@[py * tiles_x + px] == tile_spec(w, h, px, py) by {
                if py == ty {
                    assert(tiles@[ty * tiles_x + px] == tile_spec(w, h, px, ty as int));
                }
            }
            assert(tiles@.len() == (ty + 1) * tiles_x) by (nonlinear_arith)
                requires
                    tiles@.len() == ty * tiles_x + tiles_x,
            ;
            ty = ty + 1;
        }
        assert(tiles@.len() == tiles_x * tiles_y) by (nonlinear_arith)
            requires
                tiles@.len() == ty * tiles_x,
                ty == tiles_y,
        ;
        TileWorkQueue { tiles, next_tile: 0 }
    }

    /// Take the next tile; `None` once all tiles were handed out.
    pub fn get_next_tile(&mut self) -> (r: Option<&Tile>)
        ensures
            final(self).tiles() == old(self).tiles(),
            final(self).next_index() == old(self).next_index().wrapping_add(1),
            r == if old(self).next_index() < old(self).tiles().len() {
                Some(&old(self).tiles()[old(self).next_index() as int])
            } else {
                None
            },
    {
        let idx = self.next_tile;
        self.next_tile = self.next_tile.wrapping_add(1);
        if idx < self.tiles.len() {
            Some(&self.tiles[idx])
        } else {
            None
        }
    }

    /// Take the next tile index; `None` once all tiles were handed out.
    pub fn get_next_tile_idx(&mut self) -> (r: Option<usize>)
        ensures
            queue_step(*old(self), r, *final(self)),
    {
        let idx = self.next_tile;
        self.next_tile = self.next_tile.wrapping_add(1);
        if idx < self.tiles.len() {
            Some(idx)
        } else {
            None
        }
    }

    /// The tile at `idx`, if any.
    pub fn get_tile(&self, idx: usize) -> (r: Option<&Tile>)
        ensures
            r == if idx < self.tiles().len() { Some(&self.tiles()[idx as int]) } else { None },
    {
        if idx < self.tiles.len() {
            Some(&self.tiles[idx])
        } else {
            None
        }
    }

    /// Start handing out tiles from the first one again.
    pub fn reset(&mut self)
        ensures
            final(self).tiles() == old(self).tiles(),
            final(self).next_index() == 0,
    {
        self.next_tile = 0;
    }

    /// Total number of tiles.
    pub fn tile_count(&self) -> (r: usize)
        ensures
            r == self.tiles().len(),
    {
        self.tiles.len()
    }
}

/// One take from the queue: the next position while tiles remain, `None`
/// after; the position advances (wrapping) either way.
pub open spec fn queue_step(before: TileWorkQueue, r: Option<usize>, after: TileWorkQueue) -> bool {
    &&& after.tiles() == before.tiles()
    &&& after.next_index() == before.next_index().wrapping_add(1)
    &&& r == if before.next_index() < before.tiles().len() { Some(before.next_index()) } else { None }
}

/// Along a run of takes from a reset queue, take `i` meets position `i`.
proof fn lemma_queue_counts_up(states: Seq<TileWorkQueue>, rs: Seq<Option<usize>>, i: int)
    requires
        states.len() == rs.len() + 1,
        rs.len() <= usize::MAX,
        states[0].next_index() == 0,
        forall|j: int| 0 <= j < rs.len() ==> #[trigger] queue_step(states[j], rs[j], states[j + 1]),
        0 <= i <= rs.len(),
    ensures
        states[i].next_index() == i,
        states[i].tiles() == states[0].tiles(),
    decreases i,
{
    if i > 0 {
        let j = i - 1;
        lemma_queue_counts_up(states, rs, j);
        assert(queue_step(states[j], rs[j], states[j + 1]));
    }
}

/// Every tile is rendered exactly once per frame: along any run of takes from
/// a reset queue (no more than `usize::MAX`), take `i` hands out tile `i` while
/// tiles remain and nothing after, so no tile goes to two cores and every tile
/// is handed out once enough takes were made.
pub proof fn lemma_queue_hands_out_each_tile_once(states: Seq<TileWorkQueue>, rs: Seq<Option<usize>>)
    requires
        states.len() == rs.len() + 1,
        rs.len() <= usize::MAX,
        states[0].next_index() == 0,
        forall|j: int| 0 <= j < rs.len() ==> #[trigger] queue_step(states[j], rs[j], states[j + 1]),
    ensures
        forall|i: int| 0 <= i < rs.len() ==>
            #[trigger] rs[i] == if i < states[0].tiles().len() { Some(i as usize) } else { None },
        forall|i: int, j: int| 0 <= i < j < rs.len() && rs[i] is Some ==> rs[i] != rs[j],
        forall|t: int| 0 <= t < states[0].tiles().len() && t < rs.len() ==> rs[t] == Some(t as usize),
{
    assert forall|i: int| 0 <= i < rs.len() implies
        #[trigger] rs[i] == if i < states[0].tiles().len() { Some(i as usize) } else { None } by {
        lemma_queue_counts_up(states, rs, i);
        assert(queue_step(states[i], rs[i], states[i + 1]));
    }
    assert forall|i: int, j: int| 0 <= i < j < rs.len() && rs[i] is Some implies rs[i] != rs[j] by {
        assert(rs[i] == if i < states[0].tiles().len() { Some(i as usize) } else { None });
        assert(rs[j] == if j < states[0].tiles().len() { Some(j as usize) } else { None });
    }
    assert forall|t: int| 0 <= t < states[0].tiles().len() && t < rs.len() implies rs[t] == Some(t as usize) by {
        assert(rs[t] == if t < states[0].tiles().len() { Some(t as usize) } else { None });
    }
}

/// One step of a rasterizer core's work-stealing loop: the next tile to
/// rasterize with its index, or `None` once the queue is drained or when there
/// is no queue, which ends the loop.
pub fn next_tile_job(queue: &mut Option<TileWorkQueue>) -> (r: Option<(usize, Tile)>)
    ensures
        *old(queue) is None ==> r is None && *final(queue) is None,
        *old(queue) matches Some(q) ==> (*final(queue) matches Some(q2) && q2.tiles() == q.tiles()
            && q2.next_index() == q.next_index().wrapping_add(1)
            && r == if q.next_index() < q.tiles().len() {
                Some((q.next_index(), q.tiles()[q.next_index() as int]))
            } else {
                None
            }),
{
    match queue {
        Some(q) => match q.get_next_tile_idx() {
            Some(idx) => match q.get_tile(idx) {
                Some(t) => Some((idx, *t)),
                None => None,
            },
            None => None,
        },
        None => None,
    }
}

/// Tile grid dimensions used when binning.
#[derive(Debug, Clone, Copy, PartialEq, Eq, Structural)]
pub struct TileGrid {
    pub width: usize,
    pub height: usize,
}

/// Pixel bounding box of a screen triangle.
#[derive(Debug, Clone, Copy, PartialEq, Eq, Structural)]
pub struct TriBounds {
    pub min_x: i32,
    pub max_x: i32,
    pub min_y: i32,
    pub max_y: i32,
}

/// The tiling state of the renderer: work queue, grid size, the frame's
/// triangles and the per-tile bins.
pub struct TileState<T> {
    pub queue: Option<TileWorkQueue>,
    pub grid: TileGrid,
    pub storage: TriangleStorage<T>,
    pub bins: Vec<TileBinLockFree>,
}

impl<T: Copy> TileState<T> {
    /// Storage and every bin are well formed; there are `MAX_TILES` bins.
    pub open spec fn wf(self) -> bool {
        &&& self.storage.wf()
        &&& self.bins@.len() == MAX_TILES
        &&& forall|k: int| 0 <= k < MAX_TILES ==> #[trigger] self.bins@[k].wf()
    }

    /// No queue, an empty grid, no triangles and `MAX_TILES` empty bins.
    pub fn new() -> (r: Self)
        ensures
            r.wf(),
            r.queue is None,
            r.grid == (TileGrid { width: 0, height: 0 }),
            r.storage.counter() == 0,
            forall|k: int| 0 <= k < MAX_TILES ==> (#[trigger] r.bins@[k]).counter() == 0,
    {
        let mut bins: Vec<TileBinLockFree> = Vec::new();
        let mut i: usize = 0;
        while i < MAX_TILES
            invariant
                i <= MAX_TILES,
                bins@.len() == i,
                forall|k: int| 0 <= k < i ==> (#[trigger] bins@[k]).wf() && bins@[k].counter() == 0,
            decreases MAX_TILES - i,
        {
            bins.push(TileBinLockFree::new());
            i = i + 1;
        }
        TileState { queue: None, grid: TileGrid { width: 0, height: 0 }, storage: TriangleStorage::new(), bins }
    }
}

/// Prepare the frame triangle storage.
pub fn init_triangle_buffer<T: Copy>(state: &mut TileState<T>)
    requires
        old(state).wf(),
    ensures
        final(state).wf(),
        final(state).storage.counter() == 0,
        final(state).storage.slots() == old(state).storage.slots(),
        final(state).queue == old(state).queue,
        final(state).grid == old(state).grid,
        final(state).bins == old(state).bins,
{
    state.storage.reset();
}

/// Reset the triangle storage for a new frame.
pub fn reset_triangle_buffer<T: Copy>(state: &mut TileState<T>)
    requires
        old(state).wf(),
    ensures
        final(state).wf(),
        final(state).storage.counter() == 0,
        final(state).storage.slots() == old(state).storage.slots(),
        final(state).queue == old(state).queue,
        final(state).grid == old(state).grid,
        final(state).bins == old(state).bins,
{
    state.storage.reset();
}

/// Store a screen triangle for this frame; its index, or `None` when full.
pub fn add_triangle<T: Copy>(state: &mut TileState<T>, tri: T) -> (r: Option<u16>)
    requires
        old(state).wf(),
    ensures
        final(state).wf(),
        TriangleStorage::stored(old(state).storage, tri, r, final(state).storage),
        final(state).storage.counter() <= MAX_TRIANGLES_PER_FRAME,
        old(state).storage.counter() < MAX_TRIANGLES_PER_FRAME ==> r == Some(old(state).storage.counter() as u16)
            && final(state).storage.counter() == old(state).storage.counter() + 1
            && final(state).storage.slots()[old(state).storage.counter() as int] == tri
            && forall|i: int| 0 <= i < old(state).storage.counter()
                ==> final(state).storage.slots()[i] == old(state).storage.slots()[i],
        old(state).storage.counter() >= MAX_TRIANGLES_PER_FRAME ==> r is None
            && final(state).storage.counter() == old(state).storage.counter()
            && final(state).storage.slots() == old(state).storage.slots(),
        final(state).queue == old(state).queue,
        final(state).grid == old(state).grid,
        final(state).bins == old(state).bins,
{
    state.storage.add(tri)
}

/// The triangle stored at `idx` this frame, if any.
pub fn get_triangle<T: Copy>(state: &TileState<T>, idx: u16) -> (r: Option<T>)
    requires
        state.wf(),
    ensures
        r == if (idx as int) < state.storage.counter() { Some(state.storage.slots()[idx as int]) } else { None },
{
    state.storage.get(idx)
}

/// Number of triangles stored this frame.
pub fn triangle_count<T: Copy>(state: &TileState<T>) -> (r: usize)
    requires
        state.wf(),
    ensures
        r == state.storage.counter(),
        r <= MAX_TRIANGLES_PER_FRAME,
{
    state.storage.len()
}

/// Empty every tile bin.
pub fn clear_lockfree_bins<T: Copy>(state: &mut TileState<T>)
    requires
        old(state).wf(),
    ensures
        final(state).wf(),
        forall|k: int| 0 <= k < MAX_TILES ==> (#[trigger] final(state).bins@[k]).counter() == 0
            && final(state).bins@[k].slots() == old(state).bins@[k].slots(),
        final(state).queue == old(state).queue,
        final(state).grid == old(state).grid,
        final(state).storage == old(state).storage,
{
    let mut i: usize = 0;
    while i < MAX_TILES
        invariant
            i <= MAX_TILES,
            state.wf(),
            state.queue == old(state).queue,
            state.grid == old(state).grid,
            state.storage == old(state).storage,
            forall|k: int| 0 <= k < MAX_TILES ==> (#[trigger] state.bins@[k]).slots() == old(state).bins@[k].slots(),
            forall|k: int| 0 <= k < i ==> (#[trigger] state.bins@[k]).counter() == 0,
        decreases MAX_TILES - i,
    {
        state.bins[i].clear();
        i = i + 1;
    }
}

/// Set the tile grid dimensions for a `screen_width` x `screen_height` screen.
pub fn set_tile_grid_dimensions<T: Copy>(state: &mut TileState<T>, screen_width: usize, screen_height: usize)
    requires
        screen_width + TILE_SIZE <= usize::MAX,
        screen_height + TILE_SIZE <= usize::MAX,
    ensures
        final(state).grid == (TileGrid {
            width: tiles_for(screen_width as int) as usize,
            height: tiles_for(screen_height as int) as usize,
        }),
        final(state).queue == old(state).queue,
        final(state).storage == old(state).storage,
        final(state).bins == old(state).bins,
{
    let tiles_x = (screen_width + TILE_SIZE - 1) / TILE_SIZE;
    let tiles_y = (screen_height + TILE_SIZE - 1) / TILE_SIZE;
    state.grid = TileGrid { width: tiles_x, height: tiles_y };
}

/// Tile column and row range a triangle's bounding box covers, clamped to the grid.
pub open spec fn bin_range(grid: TileGrid, b: TriBounds) -> (int, int, int, int) {
    let min_tx = (b.min_x as usize) / TILE_SIZE;
    let max_tx = (b.max_x as usize) / TILE_SIZE;
    let min_ty = (b.min_y as usize) / TILE_SIZE;
    let max_ty = (b.max_y as usize) / TILE_SIZE;
    (
        min_tx as int,
        if max_tx < grid.width - 1 { max_tx as int } else { grid.width - 1 },
        min_ty as int,
        if max_ty < grid.height - 1 { max_ty as int } else { grid.height - 1 },
    )
}

/// Bin `k` (row `k / width`, column `k % width` of the grid) lies in the tile range.
pub open spec fn in_bin_range(grid: TileGrid, b: TriBounds, k: int) -> bool {
    let (min_tx, max_tx, min_ty, max_ty) = bin_range(grid, b);
    &&& min_tx <= k % (grid.width as int) <= max_tx
    &&& min_ty <= k / (grid.width as int) <= max_ty
}

/// Position of the bin of tile column `tx`, row `ty` in a grid `width` tiles wide.
pub open spec fn tile_index(width: int, tx: int, ty: int) -> int {
    ty * width + tx
}

/// Whether the 64x64 tile in column `tx`, row `ty` meets the box `b`: its
/// column lies between the columns of `b.min_x` and `b.max_x`, and its row
/// between the rows of `b.min_y` and `b.max_y` (each coordinate taken as an
/// unsigned pixel position).
pub open spec fn tile_overlaps(b: TriBounds, tx: int, ty: int) -> bool {
    &&& (b.min_x as usize) as int / 64 <= tx <= (b.max_x as usize) as int / 64
    &&& (b.min_y as usize) as int / 64 <= ty <= (b.max_y as usize) as int / 64
}

/// The bins after binning triangle `idx` with box `b` into `s0`'s grid are
/// those of `s1`, as `bin_triangle_lockfree` leaves them.
pub open spec fn binned<T>(s0: TileState<T>, s1: TileState<T>, idx: u16, b: TriBounds) -> bool {
    forall|k: int| 0 <= k < MAX_TILES ==> if s0.grid.width > 0 && in_bin_range(s0.grid, b, k) {
        TileBinLockFree::added(s0.bins@[k], #[trigger] s1.bins@[k], idx)
    } else {
        TileBinLockFree::same(s0.bins@[k], s1.bins@[k])
    }
}

/// Binning reaches exactly the tiles the box overlaps: for every tile of the
/// grid (column below the grid width, row below its height) with a bin, the
/// bin gains the triangle when the tile's column lies between the columns of
/// the box's left and right edges and its row between the rows of its top
/// and bottom edges (so the last column reached is that of `max_x`, cut to
/// the grid), and is left as it was otherwise.
pub proof fn lemma_binning_reaches_overlapped_tiles<T>(s0: TileState<T>, s1: TileState<T>, idx: u16, b: TriBounds, tx: int, ty: int)
    requires
        s0.grid.width > 0,
        binned(s0, s1, idx, b),
        0 <= tx < s0.grid.width,
        0 <= ty < s0.grid.height,
        tile_index(s0.grid.width as int, tx, ty) < MAX_TILES,
    ensures
        tile_overlaps(b, tx, ty) ==> TileBinLockFree::added(s0.bins@[tile_index(s0.grid.width as int, tx, ty)],
            s1.bins@[tile_index(s0.grid.width as int, tx, ty)], idx),
        !tile_overlaps(b, tx, ty) ==> TileBinLockFree::same(s0.bins@[tile_index(s0.grid.width as int, tx, ty)],
            s1.bins@[tile_index(s0.grid.width as int, tx, ty)]),
{
    let w = s0.grid.width as int;
    let k = tile_index(w, tx, ty);
    assert(k >= 0) by (nonlinear_arith)
        requires
            ty >= 0,
            w > 0,
            tx >= 0,
            k == ty * w + tx,
    ;
    lemma_fundamental_div_mod_converse_div(k, w, ty, tx);
    lemma_fundamental_div_mod_converse_mod(k, w, ty, tx);
    assert(in_bin_range(s0.grid, b, k) == tile_overlaps(b, tx, ty));
    assert(s1.bins@[k] == s1.bins@[k]);
}

/// Add triangle `triangle_idx` to the bin of every tile its bounding box
/// overlaps (tiles past `MAX_TILES` have no bin). Nothing happens before the
/// grid is set.
pub fn bin_triangle_lockfree<T: Copy>(state: &mut TileState<T>, triangle_idx: u16, bounds: TriBounds)
    requires
        old(state).wf(),
        old(state).grid.width > 0 ==> old(state).grid.height > 0,
        old(state).grid.width * old(state).grid.height <= usize::MAX,
    ensures
        final(state).wf(),
        final(state).queue == old(state).queue,
        final(state).grid == old(state).grid,
        final(state).storage == old(state).storage,
        forall|k: int| 0 <= k < MAX_TILES ==> if old(state).grid.width > 0 && in_bin_range(old(state).grid, bounds, k) {
            TileBinLockFree::added(old(state).bins@[k], #[trigger] final(state).bins@[k], triangle_idx)
        } else {
            TileBinLockFree::same(old(state).bins@[k], final(state).bins@[k])
        },
        binned(*old(state), *final(state), triangle_idx, bounds),
        old(state).grid.width > 0 ==> forall|tx: int, ty: int|
            0 <= tx < old(state).grid.width && 0 <= ty < old(state).grid.height
            && tile_index(old(state).grid.width as int, tx, ty) < MAX_TILES ==> if tile_overlaps(bounds, tx, ty) {
                TileBinLockFree::added(old(state).bins@[tile_index(old(state).grid.width as int, tx, ty)],
                    #[trigger] final(state).bins@[tile_index(old(state).grid.width as int, tx, ty)], triangle_idx)
            } else {
                TileBinLockFree::same(old(state).bins@[tile_index(old(state).grid.width as int, tx, ty)],
                    final(state).bins@[tile_index(old(state).grid.width as int, tx, ty)])
            },
{
    let ghost s0 = *state;
    let tiles_x = state.grid.width;
    if tiles_x == 0 {
        return;
    }
    let tiles_y = state.grid.height;
    let tile_min_x = (bounds.min_x as usize) / TILE_SIZE;
    let tile_max_x_raw = (bounds.max_x as usize) / TILE_SIZE;
    let tile_min_y = (bounds.min_y as usize) / TILE_SIZE;
    let tile_max_y_raw = (bounds.max_y as usize) / TILE_SIZE;
    let tile_max_x = if tile_max_x_raw < tiles_x - 1 { tile_max_x_raw } else { tiles_x - 1 };
    let tile_max_y = if tile_max_y_raw < tiles_y - 1 { tile_max_y_raw } else { tiles_y - 1 };
    let ghost grid = state.grid;
    let ghost tx_count = tiles_x as int;
    let mut ty = tile_min_y;
    while ty <= tile_max_y
        invariant
            state.wf(),
            grid == old(state).grid,
            state.grid == grid,
            tiles_x == grid.width,
            tiles_x > 0,
            tx_count == tiles_x,
            tiles_x * grid.height <= usize::MAX,
            tile_max_y < grid.height,
            tile_max_x < tiles_x,
            bin_range(grid, bounds) == (tile_min_x as int, tile_max_x as int, tile_min_y as int, tile_max_y as int),
            tile_min_y <= ty,
            state.queue == old(state).queue,
            state.storage == old(state).storage,
            forall|k: int| 0 <= k < MAX_TILES ==> if in_bin_range(grid, bounds, k) && k / tx_count < ty {
                TileBinLockFree::added(old(state).bins@[k], #[trigger] state.bins@[k], triangle_idx)
            } else {
                TileBinLockFree::same(old(state).bins@[k], state.bins@[k])
            },
        decreases tile_max_y + 1 - ty,
    {
        assert(ty * tiles_x + tiles_x <= tiles_x * grid.height) by (nonlinear_arith)
            requires
                ty < grid.height,
        ;
        let row_start = ty * tiles_x;
        let mut tx = tile_min_x;
        while tx <= tile_max_x
            invariant
                state.wf(),
                state.grid == grid,
                tiles_x == grid.width,
                tiles_x > 0,
                tx_count == tiles_x,
                tile_max_x < tiles_x,
                ty <= tile_max_y,
                tile_min_y <= ty,
                row_start == ty * tiles_x,
                row_start + tiles_x <= usize::MAX,
                bin_range(grid, bounds) == (tile_min_x as int, tile_max_x as int, tile_min_y as int, tile_max_y as int),
                tile_min_x <= tx,
                state.queue == old(state).queue,
                state.storage == old(state).storage,
                forall|k: int| 0 <= k < MAX_TILES ==> if in_bin_range(grid, bounds, k)
                    && (k / tx_count < ty || (k / tx_count == ty && k % tx_count < tx)) {
                    TileBinLockFree::added(old(state).bins@[k], #[trigger] state.bins@[k], triangle_idx)
                } else {
                    TileBinLockFree::same(old(state).bins@[k], state.bins@[k])
                },
            decreases tile_max_x + 1 - tx,
        {
            let tile_idx = row_start + tx;
            proof {
                lemma_fundamental_div_mod_converse_div(tile_idx as int, tx_count, ty as int, tx as int);
                lemma_fundamental_div_mod_converse_mod(tile_idx as int, tx_count, ty as int, tx as int);
            }
            if tile_idx < MAX_TILES {
                let ghost before = state.bins@;
                state.bins[tile_idx].add(triangle_idx);
                assert forall|k: int| 0 <= k < MAX_TILES && k != tile_idx
                    implies #[trigger] state.bins@[k] == before[k] && !(k / tx_count == ty && k % tx_count == tx) by {
                    lemma_fundamental_div_mod(k, tx_count);
                    if k / tx_count == ty && k % tx_count == tx {
                        let q = k / tx_count;
                        let m = k % tx_count;
                        assert(k == ty * tx_count + tx) by (nonlinear_arith)
                            requires
                                k == tx_count * q + m,
                                q == ty,
                                m == tx,
                        ;
                    }
                }
            } else {
                assert forall|k: int| 0 <= k < MAX_TILES
                    implies !(k / tx_count == ty && k % tx_count == tx) && #[trigger] state.bins@[k] == state.bins@[k] by {
                    lemma_fundamental_div_mod(k, tx_count);
                    if k / tx_count == ty && k % tx_count == tx {
                        let q = k / tx_count;
                        let m = k % tx_count;
                        assert(k == ty * tx_count + tx) by (nonlinear_arith)
                            requires
                                k == tx_count * q + m,
                                q == ty,
                                m == tx,
                        ;
                    }
                }
            }
            tx = tx + 1;
        }
        ty = ty + 1;
    }
    proof {
        let s1 = *state;
        let w = s0.grid.width as int;
        assert(binned(s0, s1, triangle_idx, bounds));
        assert forall|tx: int, ty: int|
            0 <= tx < s0.grid.width && 0 <= ty < s0.grid.height && tile_index(w, tx, ty) < MAX_TILES implies
            (if tile_overlaps(bounds, tx, ty) {
                TileBinLockFree::added(s0.bins@[tile_index(w, tx, ty)], #[trigger] s1.bins@[tile_index(w, tx, ty)], triangle_idx)
            } else {
                TileBinLockFree::same(s0.bins@[tile_index(w, tx, ty)], s1.bins@[tile_index(w, tx, ty)])
            }) by {
            lemma_binning_reaches_overlapped_tiles(s0, s1, triangle_idx, bounds, tx, ty);
        }
    }
}

/// Set up tiling for a `width` x `height` screen: a fresh work queue, the grid
/// size, and an empty triangle storage.
pub fn init<T: Copy>(state: &mut TileState<T>, width: usize, height: usize)
    requires
        old(state).wf(),
        width + TILE_SIZE <= usize::MAX,
        height + TILE_SIZE <= usize::MAX,
    ensures
        final(state).wf(),
        final(state).queue matches Some(q) && q.next_index() == 0
            && q.tiles().len() == tiles_for(width as int) * tiles_for(height as int)
            && forall|tx: int, ty: int| 0 <= tx < tiles_for(width as int) && 0 <= ty < tiles_for(height as int)
                ==> #[trigger] q.tiles()[ty * tiles_for(width as int) + tx]
                == tile_spec(width as int, height as int, tx, ty),
        final(state).grid == (TileGrid {
            width: tiles_for(width as int) as usize,
            height: tiles_for(height as int) as usize,
        }),
        final(state).storage.counter() == 0,
        final(state).bins == old(state).bins,
{
    state.queue = Some(TileWorkQueue::new(width, height));
    set_tile_grid_dimensions(state, width, height);
    init_triangle_buffer(state);
}

/// Start handing out tiles from the first one again.
pub fn reset<T: Copy>(state: &mut TileState<T>)
    ensures
        match (old(state).queue, final(state).queue) {
            (Some(a), Some(b)) => b.tiles() == a.tiles() && b.next_index() == 0,
            (None, None) => true,
            _ => false,
        },
        final(state).grid == old(state).grid,
        final(state).storage == old(state).storage,
        final(state).bins == old(state).bins,
{
    match &mut state.queue {
        Some(q) => q.reset(),
        None => {},
    }
}

/// Bin of triangles for one tile (the triangle's three vertices).
pub struct BinnedTriangle<V> {
    pub v0: V,
    pub v1: V,
    pub v2: V,
}

/// A growable per-tile triangle list.
pub struct TileBin<V> {
    pub triangles: Vec<BinnedTriangle<V>>,
}

impl<V> TileBin<V> {
    /// An empty bin.
    pub fn new() -> (r: Self)
        ensures
            r.triangles@.len() == 0,
    {
        TileBin { triangles: Vec::new() }
    }

    /// Remove every triangle.
    pub fn clear(&mut self)
        ensures
            final(self).triangles@.len() == 0,
    {
        self.triangles.clear();
    }

    /// Append a triangle.
    pub fn add(&mut self, v0: V, v1: V, v2: V)
        ensures
            final(self).triangles@ == old(self).triangles@.push(BinnedTriangle { v0, v1, v2 }),
    {
        self.triangles.push(BinnedTriangle { v0, v1, v2 });
    }
}

/// Replace the bins by `tile_count` empty ones.
pub fn init_bins<V>(bins: &mut Vec<TileBin<V>>, tile_count: usize)
    ensures
        final(bins)@.len() == tile_count,
        forall|k: int| 0 <= k < tile_count ==> (#[trigger] final(bins)@[k]).triangles@.len() == 0,
{
    bins.clear();
    let mut i: usize = 0;
    while i < tile_count
        invariant
            i <= tile_count,
            bins@.len() == i,
            forall|k: int| 0 <= k < i ==> (#[trigger] bins@[k]).triangles@.len() == 0,
        decreases tile_count - i,
    {
        bins.push(TileBin::new());
        i = i + 1;
    }
}

/// Empty every bin.
pub fn clear_bins<V>(bins: &mut Vec<TileBin<V>>)
    ensures
        final(bins)@.len() == old(bins)@.len(),
        forall|k: int| 0 <= k < final(bins)@.len() ==> (#[trigger] final(bins)@[k]).triangles@.len() == 0,
{
    let n = bins.len();
    let mut i: usize = 0;
    while i < n
        invariant
            i <= n,
            n == old(bins)@.len(),
            bins@.len() == n,
            forall|k: int| 0 <= k < i ==> (#[trigger] bins@[k]).triangles@.len() == 0,
        decreases n - i,
    {
        bins[i].clear();
        i = i + 1;
    }
}

} // verus!
