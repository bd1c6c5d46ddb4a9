//! The scrolling background: a fixed ring of tile placements whose
//! horizontal offsets all slide left one pixel per frame and wrap to the
//! trailing edge once fully off-screen, giving a seamless infinite band.

use vstd::prelude::*;

verus! {

/// The new offset of one tile after a frame: one pixel to the left, except
/// that a tile about to pass fully off-screen is re-injected at the
/// trailing edge, `(count - 1) * tile_width`, and takes this frame's
/// scroll step from there.
pub open spec fn spec_step_offset(o: int, count: int, tile_width: int) -> int {
    if o - 1 < -tile_width {
        (count - 1) * tile_width - 1
    } else {
        o - 1
    }
}

/// Every offset lies in `[-tile_width, (count - 1) * tile_width]`.
pub open spec fn offsets_in_range(s: Seq<i32>, tile_width: int) -> bool {
    forall|m: int|
        0 <= m < s.len() ==> -tile_width <= #[trigger] s[m] <= (s.len() - 1) * tile_width
}

/// The ring shape: indexed from the leading (leftmost) tile `j`, offsets
/// ascend in steps of exactly one tile width, wrapping around the end of
/// the sequence, and the leading tile sits within one tile width of the
/// origin. This is what makes the band seamless.
pub open spec fn ring_shape(s: Seq<i32>, tile_width: int, j: int) -> bool {
    &&& 0 <= j < s.len()
    &&& -tile_width <= s[j] <= 0
    &&& forall|m: int| j <= m < s.len() ==> #[trigger] s[m] == s[j] + (m - j) * tile_width
    &&& forall|m: int| 0 <= m < j ==> #[trigger] s[m] == s[j] + (m - j + s.len()) * tile_width
}

/// Some tile's span `[offset, offset + tile_width)` contains pixel `x`.
pub open spec fn covers(s: Seq<i32>, tile_width: int, x: int) -> bool {
    exists|i: int| 0 <= i < s.len() && #[trigger] s[i] <= x < s[i] + tile_width
}

/// A fixed-size band of background tiles scrolling left in lockstep.
pub struct TileStrip {
    /// Horizontal pixel offset of each tile placement.
    pub offsets: Vec<i32>,
    /// Width of one tile in pixels.
    pub tile_width: u32,
    /// Index of the current leading (leftmost) tile; bookkeeping for the
    /// ring shape, free of any run-time cost.
    pub lead: Ghost<int>,
}

impl TileStrip {
    /// Well-formedness: sane dimensions, products within pixel arithmetic
    /// range, every offset in its band, and the seamless ring shape.
    pub open spec fn wf(self) -> bool {
        &&& 1 <= self.tile_width <= 0x7fff_ffff
        &&& 1 <= self.offsets@.len()
        &&& self.offsets@.len() * self.tile_width <= 0x7fff_ffff
        &&& offsets_in_range(self.offsets@, self.tile_width as int)
        &&& ring_shape(self.offsets@, self.tile_width as int, self.lead@)
    }

    /// A fresh strip with `count` tiles laid edge to edge from the origin.
    pub fn new(tile_width: u32, count: usize) -> (t: TileStrip)
        requires
            1 <= tile_width <= 0x7fff_ffff,
            1 <= count <= 0x7fff_ffff,
            count * tile_width <= 0x7fff_ffff,
        ensures
            t.wf(),
            t.tile_width == tile_width,
            t.offsets@.len() == count,
            forall|i: int| 0 <= i < count ==> #[trigger] t.offsets@[i] == i * tile_width,
    {
        let mut offsets: Vec<i32> = Vec::new();
        let mut i: usize = 0;
        while i < count
            invariant
                i <= count,
                1 <= tile_width <= 0x7fff_ffff,
                1 <= count <= 0x7fff_ffff,
                count * tile_width <= 0x7fff_ffff,
                offsets@.len() == i,
                forall|k: int| 0 <= k < i ==> #[trigger] offsets@[k] == k * tile_width,
            decreases count - i,
        {
            proof {
                vstd::arithmetic::mul::lemma_mul_inequality(
                    i as int,
                    count as int - 1,
                    tile_width as int,
                );
                vstd::arithmetic::mul::lemma_mul_nonnegative(i as int, tile_width as int);
                assert((count as int - 1) * (tile_width as int) == count as int * (
                tile_width as int) - (tile_width as int)) by (nonlinear_arith);
            }
            offsets.push((i as i32) * (tile_width as i32));
            i = i + 1;
        }
        let t = TileStrip { offsets, tile_width, lead: Ghost(0int) };
        proof {
            assert forall|m: int| 0 <= m < t.offsets@.len() implies #[trigger] t.offsets@[m]
                == t.offsets@[0] + (m - 0) * tile_width by {
                assert(t.offsets@[0] == 0 * tile_width);
                assert(0 * tile_width == 0) by (nonlinear_arith);
            }
            assert forall|m: int|
                0 <= m < t.offsets@.len() implies -(tile_width as int) <= #[trigger] t.offsets@[m]
                <= (t.offsets@.len() - 1) * tile_width by {
                vstd::arithmetic::mul::lemma_mul_nonnegative(m, tile_width as int);
                vstd::arithmetic::mul::lemma_mul_inequality(
                    m,
                    t.offsets@.len() - 1,
                    tile_width as int,
                );
            }
        }
        t
    }

    /// Number of tile placements in the strip.
    pub fn len(&self) -> (n: usize)
        ensures
            n == self.offsets@.len(),
    {
        self.offsets.len()
    }

    /// The current offset of the tile at index `i`.
    pub fn offset_at(&self, i: usize) -> (o: i32)
        requires
            i < self.offsets@.len(),
        ensures
            o == self.offsets@[i as int],
    {
        self.offsets[i]
    }

    /// Scrolls the whole strip one pixel left, wrapping each tile that
    /// passes fully off-screen back to the trailing edge. Each tile moves
    /// independently by the same rule, and the seamless ring shape is
    /// preserved.
    pub fn step(&mut self)
        requires
            old(self).wf(),
        ensures
            final(self).wf(),
            final(self).tile_width == old(self).tile_width,
            final(self).offsets@.len() == old(self).offsets@.len(),
            forall|i: int|
                0 <= i < old(self).offsets@.len() ==> #[trigger] final(self).offsets@[i]
                    == spec_step_offset(
                    old(self).offsets@[i] as int,
                    old(self).offsets@.len() as int,
                    old(self).tile_width as int,
                ),
    {
        let n = self.offsets.len();
        let tw = self.tile_width as i32;
        proof {
            assert(n as int <= n as int * (tw as int)) by (nonlinear_arith)
                requires
                    n as int >= 1,
                    tw as int >= 1,
            ;
            assert((n as int - 1) * (tw as int) == n as int * (tw as int) - (tw as int))
                by (nonlinear_arith);
            vstd::arithmetic::mul::lemma_mul_nonnegative(n as int - 1, tw as int);
            assert(n as int * (tw as int) >= 1) by (nonlinear_arith)
                requires
                    n as int >= 1,
                    tw as int >= 1,
            ;
        }
        let reset = ((n as i32) - 1) * tw;
        let mut i: usize = 0;
        while i < n
            invariant
                i <= n,
                n == self.offsets@.len(),
                n == old(self).offsets@.len(),
                self.tile_width == old(self).tile_width,
                self.lead == old(self).lead,
                tw == self.tile_width as i32,
                old(self).wf(),
                reset == (n as int - 1) * (tw as int),
                -(tw as int) <= reset - 1 <= (n as int - 1) * (tw as int),
                forall|k: int|
                    0 <= k < i ==> #[trigger] self.offsets@[k] == spec_step_offset(
                        old(self).offsets@[k] as int,
                        n as int,
                        tw as int,
                    ),
                forall|k: int|
                    i <= k < n ==> #[trigger] self.offsets@[k] == old(self).offsets@[k],
            decreases n - i,
        {
            let o = self.offsets[i];
            proof {
                assert(old(self).offsets@[i as int] == o);
                assert(-(tw as int) <= old(self).offsets@[i as int] <= (n as int - 1) * (
                tw as int));
            }
            let nv = if o - 1 < -tw {
                reset - 1
            } else {
                o - 1
            };
            self.offsets.set(i, nv);
            i = i + 1;
        }
        let ghost j = old(self).lead@;
        let ghost n_ = old(self).offsets@.len() as int;
        let ghost tw_ = old(self).tile_width as int;
        let ghost j2: int = if old(self).offsets@[j] as int == -tw_ {
            if j + 1 < n_ {
                j + 1
            } else {
                0
            }
        } else {
            j
        };
        self.lead = Ghost(j2);
        proof {
            lemma_ring_preserved(old(self).offsets@, self.offsets@, tw_, j, j2);
        }
    }
}

/// Scrolling one frame keeps both the range bound and the ring shape,
/// with the lead moving to the next tile exactly when the old lead wraps.
proof fn lemma_ring_preserved(old_s: Seq<i32>, new_s: Seq<i32>, tw: int, j: int, j2: int)
    requires
        1 <= tw <= 0x7fff_ffff,
        1 <= old_s.len(),
        old_s.len() * tw <= 0x7fff_ffff,
        new_s.len() == old_s.len(),
        offsets_in_range(old_s, tw),
        ring_shape(old_s, tw, j),
        forall|k: int|
            0 <= k < old_s.len() ==> #[trigger] new_s[k] == spec_step_offset(
                old_s[k] as int,
                old_s.len() as int,
                tw,
            ),
        j2 == (if old_s[j] as int == -tw {
            if j + 1 < old_s.len() {
                j + 1
            } else {
                0int
            }
        } else {
            j
        }),
    ensures
        offsets_in_range(new_s, tw),
        ring_shape(new_s, tw, j2),
{
    let n = old_s.len() as int;
    assert((n - 1) * tw == n * tw - tw) by (nonlinear_arith);
    assert(n * tw >= 1) by (nonlinear_arith)
        requires
            n >= 1,
            tw >= 1,
    ;
    // No tile other than the lead can sit at the wrap threshold.
    assert forall|m: int| 0 <= m < n && m != j implies old_s[m] as int > -tw by {
        if m > j {
            assert(old_s[m] == old_s[j] + (m - j) * tw);
            assert((m - j) * tw >= tw) by (nonlinear_arith)
                requires
                    m - j >= 1,
                    tw >= 1,
            ;
        } else {
            assert(old_s[m] == old_s[j] + (m - j + n) * tw);
            assert((m - j + n) * tw >= tw) by (nonlinear_arith)
                requires
                    m - j + n >= 1,
                    tw >= 1,
            ;
        }
    }
    assert forall|m: int|
        0 <= m < n implies -tw <= #[trigger] new_s[m] <= (n - 1) * tw by {
        if old_s[m] as int - 1 < -tw {
            assert(new_s[m] == (n - 1) * tw - 1);
        } else {
            assert(new_s[m] == old_s[m] - 1);
        }
    }
    if old_s[j] as int == -tw {
        if j + 1 < n {
            // The old lead wraps to the trailing edge; its successor
            // becomes the new lead at offset -1.
            assert(old_s[j + 1] == old_s[j] + 1 * tw);
            assert(1 * tw == tw) by (nonlinear_arith);
            assert(new_s[j2] == -1);
            assert forall|m: int| j2 <= m < n implies #[trigger] new_s[m] == new_s[j2] + (m - j2)
                * tw by {
                assert(old_s[m] == old_s[j] + (m - j) * tw);
                assert(old_s[m] as int > -tw);
                assert(new_s[m] == old_s[m] - 1);
                assert((m - j) * tw == (m - j2) * tw + tw) by (nonlinear_arith)
                    requires
                        j2 == j + 1,
                ;
            }
            assert forall|m: int| 0 <= m < j2 implies #[trigger] new_s[m] == new_s[j2] + (m - j2
                + n) * tw by {
                if m == j {
                    assert(new_s[j] == (n - 1) * tw - 1);
                    assert((m - j2 + n) * tw == (n - 1) * tw) by (nonlinear_arith)
                        requires
                            j2 == m + 1,
                    ;
                } else {
                    assert(old_s[m] == old_s[j] + (m - j + n) * tw);
                    assert(old_s[m] as int > -tw);
                    assert(new_s[m] == old_s[m] - 1);
                    assert((m - j + n) * tw == (m - j2 + n) * tw + tw) by (nonlinear_arith)
                        requires
                            j2 == j + 1,
                    ;
                }
            }
        } else {
            // The old lead is the last tile; index zero becomes the lead.
            assert(j == n - 1);
            assert(j2 == 0);
            if n == 1 {
                assert(new_s[0] == (n - 1) * tw - 1);
                assert((n - 1) * tw == 0) by (nonlinear_arith)
                    requires
                        n == 1,
                ;
                assert(new_s[0] == -1);
                assert forall|m: int| j2 <= m < n implies #[trigger] new_s[m] == new_s[j2] + (m
                    - j2) * tw by {
                    assert(m == 0);
                    assert(0 * tw == 0) by (nonlinear_arith);
                }
            } else {
                assert(old_s[0] == old_s[j] + (0 - j + n) * tw);
                assert((0 - j + n) * tw == tw) by (nonlinear_arith)
                    requires
                        j == n - 1,
                ;
                assert(old_s[0] as int == 0);
                assert(new_s[0] == -1);
                assert forall|m: int| j2 <= m < n implies #[trigger] new_s[m] == new_s[j2] + (m
                    - j2) * tw by {
                    if m == j {
                        assert(new_s[j] == (n - 1) * tw - 1);
                        assert((m - j2) * tw == (n - 1) * tw) by (nonlinear_arith)
                            requires
                                m == n - 1,
                                j2 == 0,
                        ;
                    } else if m == 0 {
                        assert(0 * tw == 0) by (nonlinear_arith);
                    } else {
                        assert(old_s[m] == old_s[j] + (m - j + n) * tw);
                        assert(old_s[m] as int > -tw);
                        assert(new_s[m] == old_s[m] - 1);
                        assert(old_s[j] as int == -tw);
                        assert((m - j + n) * tw == (m + 1) * tw) by (nonlinear_arith)
                            requires
                                j == n - 1,
                        ;
                        assert((m + 1) * tw == m * tw + tw) by (nonlinear_arith);
                        assert((m - j2) * tw == m * tw) by (nonlinear_arith)
                            requires
                                j2 == 0,
                        ;
                    }
                }
            }
        }
    } else {
        // No wrap: every tile slides one pixel left and the lead stays.
        assert(j2 == j);
        assert(new_s[j] == old_s[j] - 1);
        assert forall|m: int| j2 <= m < n implies #[trigger] new_s[m] == new_s[j2] + (m - j2)
            * tw by {
            if m != j {
                assert(old_s[m] == old_s[j] + (m - j) * tw);
                assert(old_s[m] as int > -tw);
            }
            assert(new_s[m] == old_s[m] - 1);
        }
        assert forall|m: int| 0 <= m < j2 implies #[trigger] new_s[m] == new_s[j2] + (m - j2 + n)
            * tw by {
            assert(old_s[m] == old_s[j] + (m - j + n) * tw);
            assert(old_s[m] as int > -tw);
            assert(new_s[m] == old_s[m] - 1);
        }
    }
}

/// While the strip is at least one tile wider than the viewport, the
/// visible spans of the tiles jointly cover every pixel column of the
/// viewport: there is never a gap in the background.
pub proof fn lemma_full_coverage(t: &TileStrip, viewport_w: int)
    requires
        t.wf(),
        1 <= viewport_w,
        viewport_w + t.tile_width <= t.offsets@.len() * t.tile_width,
    ensures
        forall|x: int| 0 <= x < viewport_w ==> covers(t.offsets@, t.tile_width as int, x),
{
    let s = t.offsets@;
    let n = s.len() as int;
    let tw = t.tile_width as int;
    let j = t.lead@;
    let oj = s[j] as int;
    assert forall|x: int| 0 <= x < viewport_w implies covers(s, tw, x) by {
        let d = x - oj;
        let k = d / tw;
        vstd::arithmetic::div_mod::lemma_fundamental_div_mod(d, tw);
        vstd::arithmetic::div_mod::lemma_mod_division_less_than_divisor(d, tw);
        vstd::arithmetic::div_mod::lemma_div_pos_is_pos(d, tw);
        assert(d == tw * k + d % tw);
        assert(0 <= d % tw < tw);
        assert(k >= 0);
        // d < n * tw, so k < n.
        assert(d < n * tw);
        assert(k < n) by (nonlinear_arith)
            requires
                d == tw * k + d % tw,
                0 <= d % tw,
                d < n * tw,
                tw >= 1,
                k >= 0,
        ;
        let m = if j + k < n {
            j + k
        } else {
            j + k - n
        };
        if j + k < n {
            assert(s[m] == s[j] + (m - j) * tw);
            assert((m - j) * tw == tw * k) by (nonlinear_arith)
                requires
                    m - j == k,
            ;
        } else {
            assert(0 <= m < j);
            assert(s[m] == s[j] + (m - j + n) * tw);
            assert((m - j + n) * tw == tw * k) by (nonlinear_arith)
                requires
                    m - j + n == k,
            ;
        }
        assert(s[m] <= x < s[m] + tw);
    }
}

/// Restates the range half of the tile invariant: at all times every
/// offset lies in `[-tile_width, (count - 1) * tile_width]`.
pub proof fn lemma_offsets_in_range(t: &TileStrip)
    requires
        t.wf(),
    ensures
        forall|m: int|
            0 <= m < t.offsets@.len() ==> -t.tile_width <= #[trigger] t.offsets@[m] <= (
            t.offsets@.len() - 1) * t.tile_width,
{
}

} // verus!
