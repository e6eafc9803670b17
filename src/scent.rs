//! The tile scent map: a time-keyed record of recently occupied tiles that
//! fades out and expires.
use vstd::prelude::*;
use crate::geometry::TileIndex;

verus! {

/// When a tile was last touched and for how long its scent lasts, in milliseconds.
#[derive(Clone, Copy, Debug, PartialEq, Eq, Structural)]
pub struct Scent {
    pub start_time: u64,
    pub duration: u64,
}

/// Milliseconds since the scent was laid; zero if `now` is earlier.
pub open spec fn elapsed(s: Scent, now: int) -> int {
    if now >= s.start_time {
        now - s.start_time
    } else {
        0
    }
}

/// A scent is live while less than its duration has elapsed.
pub open spec fn is_live(s: Scent, now: int) -> bool {
    elapsed(s, now) < s.duration
}

/// The intensity of a live scent: `scale * (1 - elapsed / duration)`, rounded
/// up, so it runs from `scale` when laid down to at least 1 until it expires.
pub open spec fn intensity(s: Scent, now: int, scale: int) -> int {
    (scale * (s.duration - elapsed(s, now)) + s.duration - 1) / s.duration as int
}

/// The scents of `m` that are still live at `now`.
pub open spec fn live_part(m: Map<TileIndex, Scent>, now: int) -> Map<TileIndex, Scent> {
    Map::new(|k: TileIndex| m.contains_key(k) && is_live(m[k], now), |k: TileIndex| m[k])
}

#[derive(Clone, Copy, Debug)]
struct ScentEntry {
    tile: TileIndex,
    scent: Scent,
}

spec fn holds(s: Seq<ScentEntry>, k: TileIndex) -> bool {
    exists|i: int| 0 <= i < s.len() && s[i].tile == k
}

spec fn unique_tiles(s: Seq<ScentEntry>) -> bool {
    forall|i: int, j: int|
        0 <= i < s.len() && 0 <= j < s.len() && i != j ==> s[i].tile != s[j].tile
}

spec fn scent_map(s: Seq<ScentEntry>) -> Map<TileIndex, Scent> {
    Map::new(
        |k: TileIndex| holds(s, k),
        |k: TileIndex| s[choose|i: int| 0 <= i < s.len() && s[i].tile == k].scent,
    )
}

proof fn lemma_lookup(s: Seq<ScentEntry>, i: int)
    requires
        unique_tiles(s),
        0 <= i < s.len(),
    ensures
        scent_map(s).contains_key(s[i].tile),
        scent_map(s)[s[i].tile] == s[i].scent,
{
    let k = s[i].tile;
    assert(holds(s, k));
    let j = choose|j: int| 0 <= j < s.len() && s[j].tile == k;
    assert(j == i);
}

/// The scents of recently visited tiles: at most one entry per tile.
pub struct ScentMap {
    entries: Vec<ScentEntry>,
}

impl View for ScentMap {
    type V = Map<TileIndex, Scent>;

    closed spec fn view(&self) -> Map<TileIndex, Scent> {
        scent_map(self.entries@)
    }
}

impl ScentMap {
    /// Well-formed: no tile has two entries.
    pub closed spec fn wf(&self) -> bool {
        unique_tiles(self.entries@)
    }

    /// An empty map.
    pub fn new() -> (r: ScentMap)
        ensures
            r.wf(),
            r@ == Map::<TileIndex, Scent>::empty(),
    {
        let r = ScentMap { entries: Vec::new() };
        assert(r@ =~= Map::<TileIndex, Scent>::empty());
        r
    }
}

impl ScentMap {
    /// The scent recorded for `tile`, if any.
    pub fn get(&self, tile: TileIndex) -> (r: Option<Scent>)
        requires
            self.wf(),
        ensures
            r == (if self@.contains_key(tile) {
                Some(self@[tile])
            } else {
                None::<Scent>
            }),
    {
        match find(&self.entries, tile) {
            Some(i) => {
                proof {
                    lemma_lookup(self.entries@, i as int);
                }
                Some(self.entries[i].scent)
            },
            None => None,
        }
    }
}

fn find(entries: &Vec<ScentEntry>, tile: TileIndex) -> (r: Option<usize>)
    ensures
        match r {
            Some(i) => i < entries@.len() && entries@[i as int].tile == tile,
            None => forall|j: int| 0 <= j < entries@.len() ==> entries@[j].tile != tile,
        },
{
    let mut i: usize = 0;
    while i < entries.len()
        invariant
            i <= entries@.len(),
            forall|j: int| 0 <= j < i ==> entries@[j].tile != tile,
        decreases entries@.len() - i,
    {
        if entries[i].tile == tile {
            return Some(i);
        }
        i += 1;
    }
    None
}

/// Lays a fresh scent of `duration` milliseconds on `tile_pos` at time `now`,
/// replacing any scent the tile already had.
pub fn light_up_tile(tile_pos: TileIndex, duration: u64, tile_lights: &mut ScentMap, now: u64)
    requires
        old(tile_lights).wf(),
    ensures
        final(tile_lights).wf(),
        final(tile_lights)@ == old(tile_lights)@.insert(
            tile_pos,
            (Scent { start_time: now, duration }),
        ),
{
    let entry = ScentEntry { tile: tile_pos, scent: Scent { start_time: now, duration } };
    let ghost before = tile_lights.entries@;
    match find(&tile_lights.entries, tile_pos) {
        Some(i) => {
            tile_lights.entries.set(i, entry);
        },
        None => {
            tile_lights.entries.push(entry);
        },
    }
    proof {
        let after = tile_lights.entries@;
        assert(unique_tiles(after));
        assert forall|k: TileIndex| holds(after, k) == (holds(before, k) || k == tile_pos) by {
            if holds(before, k) {
                let j = choose|j: int| 0 <= j < before.len() && before[j].tile == k;
                assert(after[j].tile == k);
            }
            if holds(after, k) {
                let j = choose|j: int| 0 <= j < after.len() && after[j].tile == k;
                if k != tile_pos {
                    assert(before[j].tile == k);
                }
            }
            if k == tile_pos {
                if after.len() > before.len() {
                    assert(after[before.len() as int].tile == k);
                } else {
                    let i = choose|i: int| 0 <= i < before.len() && before[i].tile == tile_pos;
                    assert(after[i].tile == k);
                }
            }
        }
        assert forall|k: TileIndex| #[trigger] holds(after, k) implies scent_map(after)[k] == scent_map(
            before,
        ).insert(tile_pos, entry.scent)[k] by {
            let j = choose|j: int| 0 <= j < after.len() && after[j].tile == k;
            lemma_lookup(after, j);
            if k != tile_pos {
                assert(before[j] == after[j]);
                lemma_lookup(before, j);
            }
        }
        assert(scent_map(after) =~= scent_map(before).insert(tile_pos, entry.scent));
    }
}

fn fade(s: Scent, now: u64, scale: u32) -> (r: u32)
    requires
        is_live(s, now as int),
    ensures
        r == intensity(s, now as int, scale as int),
        1 <= r <= scale || scale == 0,
{
    let spent: u64 = if now >= s.start_time {
        now - s.start_time
    } else {
        0
    };
    let left = (s.duration - spent) as u128;
    let d = s.duration as u128;
    proof {
        assert(scale * left <= 0x1_0000_0000 * 0x1_0000_0000_0000_0000) by (nonlinear_arith)
            requires scale < 0x1_0000_0000, left < 0x1_0000_0000_0000_0000;
    }
    let num = (scale as u128) * left + (d - 1);
    let q = num / d;
    proof {
        assert(q <= scale) by (nonlinear_arith)
            requires q == num / d, num == scale * left + (d - 1), 1 <= left <= d;
        assert(scale > 0 ==> q >= 1) by (nonlinear_arith)
            requires q == num / d, num == scale * left + (d - 1), 1 <= left <= d;
    }
    q as u32
}

/// Drops every scent that has expired by `now` and returns each remaining
/// tile once, with its intensity on a scale of `0..=scale`.
pub fn update_tile_scent(tile_lights: &mut ScentMap, now: u64, scale: u32) -> (lit: Vec<
    (TileIndex, u32),
>)
    requires
        old(tile_lights).wf(),
    ensures
        final(tile_lights).wf(),
        final(tile_lights)@ == live_part(old(tile_lights)@, now as int),
        forall|i: int|
            0 <= i < lit@.len() ==> {
                &&& final(tile_lights)@.contains_key(#[trigger] lit@[i].0)
                &&& lit@[i].1 == intensity(final(tile_lights)@[lit@[i].0], now as int, scale as int)
            },
        forall|k: TileIndex|
            #[trigger] final(tile_lights)@.contains_key(k) ==> exists|i: int|
                0 <= i < lit@.len() && lit@[i].0 == k,
        forall|i: int, j: int| 0 <= i < j < lit@.len() ==> lit@[i].0 != lit@[j].0,
{
    let ghost before = tile_lights.entries@;
    let mut kept: Vec<ScentEntry> = Vec::new();
    let mut lit: Vec<(TileIndex, u32)> = Vec::new();
    let ghost mut idx: Seq<int> = Seq::empty();
    let n = tile_lights.entries.len();
    let mut i: usize = 0;
    while i < n
        invariant
            n == before.len(),
            tile_lights.entries@ == before,
            unique_tiles(before),
            i <= n,
            kept@.len() == idx.len(),
            lit@.len() == idx.len(),
            forall|j: int|
                0 <= j < idx.len() ==> {
                    &&& 0 <= #[trigger] idx[j] < i
                    &&& kept@[j] == before[idx[j]]
                    &&& is_live(before[idx[j]].scent, now as int)
                },
            forall|j1: int, j2: int| 0 <= j1 < j2 < idx.len() ==> idx[j1] < idx[j2],
            forall|m: int|
                0 <= m < i && is_live(#[trigger] before[m].scent, now as int) ==> exists|j: int|
                    0 <= j < idx.len() && idx[j] == m,
            forall|j: int|
                0 <= j < lit@.len() ==> {
                    &&& (#[trigger] lit@[j]).0 == kept@[j].tile
                    &&& lit@[j].1 == intensity(kept@[j].scent, now as int, scale as int)
                },
        decreases n - i,
    {
        let e = tile_lights.entries[i];
        let spent: u64 = if now >= e.scent.start_time {
            now - e.scent.start_time
        } else {
            0
        };
        if spent < e.scent.duration {
            let level = fade(e.scent, now, scale);
            kept.push(e);
            lit.push((e.tile, level));
            proof {
                let old_idx = idx;
                idx = idx.push(i as int);
                assert(idx[idx.len() - 1] == i as int);
                assert forall|j: int| 0 <= j < old_idx.len() implies idx[j] == old_idx[j] by {}
            }
        }
        proof {
            let m = i as int;
            if is_live(before[m].scent, now as int) {
                assert(idx[idx.len() - 1] == m);
            }
        }
        i += 1;
    }
    let ghost after = kept@;
    proof {
        assert forall|j1: int, j2: int|
            0 <= j1 < after.len() && 0 <= j2 < after.len() && j1 != j2 implies after[j1].tile
            != after[j2].tile by {
            assert(idx[j1] != idx[j2]);
        }
        assert(unique_tiles(after));
        let target = live_part(scent_map(before), now as int);
        assert forall|k: TileIndex| holds(after, k) == target.contains_key(k) by {
            if holds(after, k) {
                let j = choose|j: int| 0 <= j < after.len() && after[j].tile == k;
                lemma_lookup(before, idx[j]);
            }
            if target.contains_key(k) {
                let m = choose|m: int| 0 <= m < before.len() && before[m].tile == k;
                lemma_lookup(before, m);
                let j = choose|j: int| 0 <= j < idx.len() && idx[j] == m;
                assert(after[j].tile == k);
            }
        }
        assert forall|k: TileIndex| #[trigger] holds(after, k) implies scent_map(after)[k]
            == target[k] by {
            let j = choose|j: int| 0 <= j < after.len() && after[j].tile == k;
            lemma_lookup(after, j);
            lemma_lookup(before, idx[j]);
        }
        assert(scent_map(after) =~= target);
        assert forall|j: int| 0 <= j < lit@.len() implies scent_map(after)[(#[trigger] lit@[j]).0]
            == after[j].scent by {
            lemma_lookup(after, j);
        }
        assert forall|k: TileIndex| #[trigger] scent_map(after).contains_key(k) implies exists|j: int|
            0 <= j < lit@.len() && lit@[j].0 == k by {
            let j = choose|j: int| 0 <= j < after.len() && after[j].tile == k;
            assert(lit@[j].0 == k);
        }
    }
    tile_lights.entries = kept;
    lit
}

/// A scent laid at `start` for `duration` milliseconds is still reported by a
/// sweep at `now` exactly while less than `duration` has elapsed, and while
/// reported its intensity is positive on any positive scale.
pub proof fn lemma_scent_expiry(
    m: Map<TileIndex, Scent>,
    tile: TileIndex,
    start: u64,
    duration: u64,
    now: u64,
    scale: u32,
)
    requires
        start <= now,
    ensures
        ({
            let swept = live_part(m.insert(tile, (Scent { start_time: start, duration })), now as int);
            &&& swept.contains_key(tile) <==> now - start < duration
            &&& swept.contains_key(tile) && scale > 0 ==> intensity(swept[tile], now as int, scale as int) > 0
        }),
{
    let s = Scent { start_time: start, duration };
    let left = duration - (now - start);
    if now - start < duration && scale > 0 {
        assert((scale * left + duration - 1) / duration as int >= 1) by (nonlinear_arith)
            requires scale >= 1, 1 <= left <= duration;
    }
}

/// Touching a tile again resets its timer: only the latest touch counts.
pub proof fn lemma_scent_overwrite(m: Map<TileIndex, Scent>, tile: TileIndex, first: Scent, second: Scent)
    ensures
        m.insert(tile, first).insert(tile, second) == m.insert(tile, second),
{
    assert(m.insert(tile, first).insert(tile, second) =~= m.insert(tile, second));
}

/// A second sweep at the same time removes nothing more.
pub proof fn lemma_sweep_idempotent(m: Map<TileIndex, Scent>, now: int)
    ensures
        live_part(live_part(m, now), now) == live_part(m, now),
{
    assert(live_part(live_part(m, now), now) =~= live_part(m, now));
}

} // verus!
