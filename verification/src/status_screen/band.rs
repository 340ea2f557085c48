//! The rows of the status screen a redraw touches.
//!
//! A [`Band`] is the range of rows one part of the layout occupies, and [`DirtyRows`] is what a
//! redraw comes to: the bands it changed, merged into as few of them as they allow.
use vstd::prelude::*;

verus! {

/// Number of parts of the screen that are redrawn on their own: the header, the brightness
/// overlay, the layer and the battery band.
pub const PART_COUNT: usize = 4;

/// A full-width range of rows of the screen.
#[derive(Clone, Copy, PartialEq, Eq, Debug)]
pub struct Band {
    /// Topmost row (px) of the band.
    pub top: i32,
    /// Number of rows (px) the band covers.
    pub height: i32,
}

impl Band {
    /// The row just past the bottom of the band, as a mathematical integer.
    pub open spec fn end(self) -> int {
        self.top + self.height
    }

    /// Whether the bottom of the band is a row `i32` can hold.
    pub open spec fn fits(self) -> bool {
        i32::MIN <= self.end() <= i32::MAX
    }

    /// Whether the band covers `row`.
    pub open spec fn covers(self, row: int) -> bool {
        self.top <= row < self.end()
    }

    /// The row (px) just past the bottom of the band.
    pub fn bottom(self) -> (b: i32)
        requires
            self.fits(),
        ensures
            b == self.end(),
    {
        self.top + self.height
    }

    /// Whether the two bands share a row, as a mathematical value.
    pub open spec fn shares_row(self, other: Self) -> bool {
        &&& self.height > 0
        &&& other.height > 0
        &&& self.top < other.end()
        &&& other.top < self.end()
    }

    /// Whether the two bands share a row.
    ///
    /// A band of no rows shares none with any band.
    pub fn intersects(self, other: Self) -> (r: bool)
        requires
            self.fits(),
            other.fits(),
        ensures
            r == self.shares_row(other),
    {
        self.height > 0 && other.height > 0 && self.top < other.bottom() && other.top
            < self.bottom()
    }

    /// The smallest band that covers both, as a mathematical value.
    pub open spec fn spec_union(self, other: Self) -> Band {
        Band {
            top: spec_min(self.top as int, other.top as int) as i32,
            height: (spec_max(self.end(), other.end()) - spec_min(self.top as int, other.top as int)) as i32,
        }
    }

    /// The smallest band that covers both.
    pub fn union(self, other: Self) -> (u: Self)
        requires
            self.fits(),
            other.fits(),
            spec_max(self.end(), other.end()) - spec_min(self.top as int, other.top as int)
                <= i32::MAX,
        ensures
            u.top == spec_min(self.top as int, other.top as int),
            u.end() == spec_max(self.end(), other.end()),
            u.fits(),
            u == self.spec_union(other),
    {
        let top = if self.top <= other.top {
            self.top
        } else {
            other.top
        };
        let sb = self.bottom();
        let ob = other.bottom();
        let bottom = if sb >= ob {
            sb
        } else {
            ob
        };
        Band { top, height: bottom - top }
    }

    /// The band as a row range of the framebuffer: the first row and the number of rows.
    ///
    /// A negative value comes out as zero.
    pub fn row_range(self) -> (r: (usize, usize))
        ensures
            r.0 == (if self.top >= 0 { self.top as int } else { 0 }),
            r.1 == (if self.height >= 0 { self.height as int } else { 0 }),
    {
        let top: usize = if self.top >= 0 {
            self.top as usize
        } else {
            0
        };
        let height: usize = if self.height >= 0 {
            self.height as usize
        } else {
            0
        };
        (top, height)
    }
}

/// The smaller of two integers.
pub open spec fn spec_min(a: int, b: int) -> int {
    if a <= b {
        a
    } else {
        b
    }
}

/// The larger of two integers.
pub open spec fn spec_max(a: int, b: int) -> int {
    if a >= b {
        a
    } else {
        b
    }
}

/// Whether a row is covered by one of `bands`.
pub open spec fn covered_by(bands: Seq<Band>, row: int) -> bool {
    exists|i: int| 0 <= i < bands.len() && (#[trigger] bands[i]).covers(row)
}

/// Whether `bands` are ordered from the top down and neither overlap nor touch, none of them of
/// negative height.
pub open spec fn in_order(bands: Seq<Band>) -> bool {
    &&& forall|i: int| 0 <= i < bands.len() ==> (#[trigger] bands[i]).height >= 0
    &&& forall|i: int, j: int|
        0 <= i < j < bands.len() ==> (#[trigger] bands[i]).end() < (#[trigger] bands[j]).top
}

/// Whether `bands` are ordered from the top down and neither overlap nor touch, each of them
/// covering at least one row.
pub open spec fn separated(bands: Seq<Band>) -> bool {
    &&& in_order(bands)
    &&& forall|i: int| 0 <= i < bands.len() ==> (#[trigger] bands[i]).height > 0
}

/// Whether every band of `bands` has a bottom that `i32` can hold.
pub open spec fn all_fit(bands: Seq<Band>) -> bool {
    forall|i: int| 0 <= i < bands.len() ==> (#[trigger] bands[i]).fits()
}

/// Whether `band` would be merged into the last of `bands` rather than added after it.
pub open spec fn merges(bands: Seq<Band>, band: Band) -> bool {
    bands.len() > 0 && band.top <= bands.last().end()
}

/// The bands after pushing `band` onto `bands`: merged into the last one when it reaches that
/// one, added after it while there is room, and dropped otherwise.
pub open spec fn push_band(bands: Seq<Band>, band: Band) -> Seq<Band> {
    if merges(bands, band) {
        let last = bands.last();
        bands.update(
            bands.len() - 1,
            Band {
                top: spec_min(last.top as int, band.top as int) as i32,
                height: (spec_max(last.end(), band.end()) - spec_min(
                    last.top as int,
                    band.top as int,
                )) as i32,
            },
        )
    } else if bands.len() < PART_COUNT {
        bands.push(band)
    } else {
        bands
    }
}

/// Whether `band` can be pushed onto `bands` without the arithmetic leaving `i32`: a band that is
/// merged has a bottom `i32` holds and reaches, together with the last band, no further than
/// `i32` holds; one that is stored has a bottom `i32` holds; one that is dropped needs nothing.
pub open spec fn can_push_band(bands: Seq<Band>, band: Band) -> bool {
    &&& merges(bands, band) ==> {
        &&& band.fits()
        &&& spec_max(bands.last().end(), band.end()) - spec_min(
            bands.last().top as int,
            band.top as int,
        ) <= i32::MAX
    }
    &&& !merges(bands, band) && bands.len() < PART_COUNT ==> band.fits()
}

/// The bands after pushing each of `pushes` onto `bands` in turn.
pub open spec fn push_all(bands: Seq<Band>, pushes: Seq<Band>) -> Seq<Band>
    decreases pushes.len(),
{
    if pushes.len() == 0 {
        bands
    } else {
        push_all(push_band(bands, pushes[0]), pushes.drop_first())
    }
}

/// Whether each of `pushes`, pushed onto `bands` in turn, [`can_push_band`] when its turn comes.
pub open spec fn can_push_all(bands: Seq<Band>, pushes: Seq<Band>) -> bool
    decreases pushes.len(),
{
    pushes.len() == 0 || (can_push_band(bands, pushes[0]) && can_push_all(
        push_band(bands, pushes[0]),
        pushes.drop_first(),
    ))
}

/// Bound on how far a band of the screen reaches, well within `i32`.
pub open spec fn bounded(b: Band) -> bool {
    -0x100_0000 <= b.top <= 0x100_0000 && 0 <= b.height && b.end() <= 0x200_0000
}

/// Whether every band of `bands` is [`bounded`].
pub open spec fn all_bounded(bands: Seq<Band>) -> bool {
    forall|i: int| 0 <= i < bands.len() ==> bounded(#[trigger] bands[i])
}

/// Bands pushed onto bounded bands, each starting within the bound and no taller than half of
/// it, can always be pushed and stay bounded.
pub proof fn lemma_push_bounded(bands: Seq<Band>, band: Band)
    requires
        all_bounded(bands),
        -0x100_0000 <= band.top <= 0x100_0000,
        0 <= band.height <= 0x100_0000,
    ensures
        band.fits(),
        all_fit(bands),
        bands.len() > 0 ==> spec_max(bands.last().end(), band.end()) - spec_min(
            bands.last().top as int,
            band.top as int,
        ) <= i32::MAX,
        all_bounded(push_band(bands, band)),
{
    assert forall|i: int| 0 <= i < bands.len() implies (#[trigger] bands[i]).fits() by {
        assert(bounded(bands[i]));
    }
    if bands.len() > 0 {
        assert(bounded(bands[bands.len() - 1]));
    }
    let r = push_band(bands, band);
    assert forall|i: int| 0 <= i < r.len() implies bounded(#[trigger] r[i]) by {
        if i < bands.len() {
            assert(bounded(bands[i]));
        }
    }
}

/// The rows a redraw changed, as bands ordered from the top of the screen down.
pub struct DirtyRows {
    /// The bands, of which the first [`Self::len`] are in use.
    bands: [Band; PART_COUNT],
    /// How many of [`Self::bands`] are in use.
    len: usize,
}

impl View for DirtyRows {
    type V = Seq<Band>;

    closed spec fn view(&self) -> Seq<Band> {
        self.bands@.subrange(0, self.len as int)
    }
}

impl DirtyRows {
    /// Whether the bands in use are within the capacity and all have a representable bottom.
    pub closed spec fn wf(&self) -> bool {
        &&& self.len <= PART_COUNT
        &&& all_fit(self@)
    }

    /// Whether `band` can be pushed without the arithmetic leaving `i32`.
    pub open spec fn can_push(&self, band: Band) -> bool {
        can_push_band(self@, band)
    }

    /// Whether `band` would be merged into the last band rather than added after it.
    pub open spec fn merges(&self, band: Band) -> bool {
        merges(self@, band)
    }

    /// The bands after pushing `band`.
    pub open spec fn pushed(&self, band: Band) -> Seq<Band> {
        push_band(self@, band)
    }

    /// No rows at all.
    pub fn new() -> (r: Self)
        ensures
            r.wf(),
            r@ == Seq::<Band>::empty(),
    {
        let r = DirtyRows { bands: [Band { top: 0, height: 0 }; PART_COUNT], len: 0 };
        assert(r@ =~= Seq::<Band>::empty());
        r
    }

    /// Adds `band`, merging it into the band before it when the two overlap or touch.
    ///
    /// Bands are added from the top of the screen down, so only the one added last can reach
    /// `band`. A band that neither merges nor finds a free slot is dropped.
    pub fn push(&mut self, band: Band)
        requires
            old(self).wf(),
            old(self).can_push(band),
        ensures
            final(self).wf(),
            final(self)@ == old(self).pushed(band),
    {
        if self.len > 0 {
            let last = self.bands[self.len - 1];
            if band.top <= last.bottom() {
                let merged = last.union(band);
                self.bands[self.len - 1] = merged;
                assert(self@ =~= old(self).pushed(band));
                return;
            }
        }
        if self.len < PART_COUNT {
            self.bands[self.len] = band;
            self.len = self.len + 1;
            assert(self@ =~= old(self).pushed(band));
        }
    }

    /// The bands, ordered from the top of the screen down.
    pub fn bands(&self) -> (r: &[Band])
        requires
            self.wf(),
        ensures
            r@ == self@,
    {
        vstd::slice::slice_subrange(self.bands.as_slice(), 0, self.len)
    }
}

/// Two bands intersect exactly when some row is covered by both.
pub proof fn lemma_intersects_iff_shared_row(a: Band, b: Band)
    ensures
        a.shares_row(b) <==> exists|row: int| a.covers(row) && b.covers(row),
{
    if a.shares_row(b) {
        let row = spec_max(a.top as int, b.top as int);
        assert(a.covers(row) && b.covers(row));
    }
}

/// The union of two bands covers every row either of them covers, and when the two overlap or
/// touch it covers no other row.
pub proof fn lemma_union_rows(a: Band, b: Band, u: Band)
    requires
        u.top == spec_min(a.top as int, b.top as int),
        u.end() == spec_max(a.end(), b.end()),
        a.height >= 0,
        b.height >= 0,
    ensures
        forall|row: int| a.covers(row) || b.covers(row) ==> #[trigger] u.covers(row),
        a.top <= b.end() && b.top <= a.end() ==> forall|row: int|
            #[trigger] u.covers(row) ==> a.covers(row) || b.covers(row),
{
}

/// Pushing a band, in whatever order, never loses a row that was covered, and covers the rows of
/// the band itself unless it is dropped for want of room.
pub proof fn lemma_push_keeps_covered(bands: Seq<Band>, band: Band, row: int)
    requires
        all_bounded(bands),
        -0x100_0000 <= band.top <= 0x100_0000,
        0 <= band.height <= 0x100_0000,
    ensures
        push_band(bands, band).len() <= bands.len() + 1,
        all_bounded(push_band(bands, band)),
        covered_by(bands, row) ==> covered_by(push_band(bands, band), row),
        (merges(bands, band) || bands.len() < PART_COUNT) && band.covers(row) ==> covered_by(
            push_band(bands, band),
            row,
        ),
{
    lemma_push_bounded(bands, band);
    let new = push_band(bands, band);
    if merges(bands, band) {
        let n = bands.len() - 1;
        let last = bands[n];
        assert(bounded(last));
        let u = new[n];
        assert(u.top <= last.top && u.top <= band.top);
        assert(u.end() >= last.end() && u.end() >= band.end());
        if covered_by(bands, row) {
            let i = choose|i: int| 0 <= i < bands.len() && (#[trigger] bands[i]).covers(row);
            if i == n {
                assert(new[n].covers(row));
            } else {
                assert(new[i].covers(row));
            }
        }
        if band.covers(row) {
            assert(new[n].covers(row));
        }
    } else if bands.len() < PART_COUNT {
        assert(new == bands.push(band));
        if covered_by(bands, row) {
            let i = choose|i: int| 0 <= i < bands.len() && (#[trigger] bands[i]).covers(row);
            assert(new[i].covers(row));
        }
        if band.covers(row) {
            assert(new[bands.len() as int].covers(row));
        }
    }
}

/// Pushing a band of no negative height that starts no higher than the last one keeps the bands
/// ordered from the top down, neither overlapping nor touching, and at most [`PART_COUNT`].
/// Afterwards they cover the rows they covered before together with the rows of `band`, unless
/// there was no room for it: then they are unchanged. The bands before the last stay as they were.
pub proof fn lemma_push_band_rows(bands: Seq<Band>, band: Band)
    requires
        all_fit(bands),
        in_order(bands),
        bands.len() <= PART_COUNT,
        band.height >= 0,
        bands.len() > 0 ==> bands.last().top <= band.top,
        can_push_band(bands, band),
    ensures
        all_fit(push_band(bands, band)),
        in_order(push_band(bands, band)),
        push_band(bands, band).len() <= PART_COUNT,
        push_band(bands, band).len() > 0,
        push_band(bands, band).last().top <= band.top,
        merges(bands, band) ==> {
            &&& push_band(bands, band).len() == bands.len()
            &&& push_band(bands, band).last().end() >= band.end()
            &&& push_band(bands, band).drop_last() == bands.drop_last()
        },
        !merges(bands, band) && bands.len() < PART_COUNT ==> push_band(bands, band) == bands.push(
            band,
        ),
        !merges(bands, band) && bands.len() == PART_COUNT ==> push_band(bands, band) == bands,
        merges(bands, band) || bands.len() < PART_COUNT ==> forall|row: int|
            #[trigger] covered_by(push_band(bands, band), row) <==> (covered_by(bands, row)
                || band.covers(row)),
        separated(bands) && band.height > 0 ==> separated(push_band(bands, band)),
{
    let old = bands;
    let new = push_band(bands, band);
    if merges(bands, band) {
        let n = old.len() - 1;
        let last = old[n];
        let u = new[n];
        assert(u.top == last.top);
        assert(new.drop_last() =~= old.drop_last());
        assert forall|i: int, j: int| 0 <= i < j < new.len() implies (#[trigger] new[i]).end()
            < (#[trigger] new[j]).top by {
            if j == n {
                assert(old[i].end() < old[n].top);
            } else {
                assert(old[i].end() < old[j].top);
            }
        }
        assert forall|row: int| #[trigger] covered_by(new, row) <==> (covered_by(old, row)
            || band.covers(row)) by {
            if covered_by(new, row) {
                let i = choose|i: int| 0 <= i < new.len() && (#[trigger] new[i]).covers(row);
                if i != n {
                    assert(old[i].covers(row));
                }
            }
            if covered_by(old, row) {
                let i = choose|i: int| 0 <= i < old.len() && (#[trigger] old[i]).covers(row);
                if i == n {
                    assert(new[n].covers(row));
                } else {
                    assert(new[i].covers(row));
                }
            }
            if band.covers(row) {
                assert(new[n].covers(row));
            }
        }
    } else if old.len() < PART_COUNT {
        let n = old.len() as int;
        assert(new == old.push(band));
        assert forall|i: int, j: int| 0 <= i < j < new.len() implies (#[trigger] new[i]).end()
            < (#[trigger] new[j]).top by {
            if j == n {
                assert(old[i].end() <= old[n - 1].end());
                if i < n - 1 {
                    assert(old[i].end() < old[n - 1].top);
                }
            }
        }
        assert forall|row: int| #[trigger] covered_by(new, row) <==> (covered_by(old, row)
            || band.covers(row)) by {
            if covered_by(new, row) {
                let i = choose|i: int| 0 <= i < new.len() && (#[trigger] new[i]).covers(row);
                if i != n {
                    assert(old[i].covers(row));
                }
            }
            if covered_by(old, row) {
                let i = choose|i: int| 0 <= i < old.len() && (#[trigger] old[i]).covers(row);
                assert(new[i].covers(row));
            }
            if band.covers(row) {
                assert(new[n].covers(row));
            }
        }
    }
}

/// Pushing each of `pushes` onto `bands` in turn, in the order of their tops and none of negative
/// height, keeps the bands ordered from the top down, neither overlapping nor touching, and at most
/// [`PART_COUNT`], as long as the arithmetic of each push stays within `i32`.
pub proof fn lemma_push_all_in_order(bands: Seq<Band>, pushes: Seq<Band>)
    requires
        all_fit(bands),
        in_order(bands),
        bands.len() <= PART_COUNT,
        forall|i: int| 0 <= i < pushes.len() ==> (#[trigger] pushes[i]).height >= 0,
        forall|i: int, j: int|
            0 <= i < j < pushes.len() ==> (#[trigger] pushes[i]).top <= (#[trigger] pushes[j]).top,
        bands.len() > 0 && pushes.len() > 0 ==> bands.last().top <= pushes[0].top,
        can_push_all(bands, pushes),
    ensures
        all_fit(push_all(bands, pushes)),
        in_order(push_all(bands, pushes)),
        push_all(bands, pushes).len() <= PART_COUNT,
    decreases pushes.len(),
{
    if pushes.len() > 0 {
        let next = push_band(bands, pushes[0]);
        lemma_push_band_rows(bands, pushes[0]);
        let rest = pushes.drop_first();
        assert forall|i: int, j: int| 0 <= i < j < rest.len() implies (#[trigger] rest[i]).top
            <= (#[trigger] rest[j]).top by {
            assert(pushes[i + 1].top <= pushes[j + 1].top);
        }
        if rest.len() > 0 {
            assert(pushes[0].top <= pushes[1].top);
        }
        lemma_push_all_in_order(next, rest);
    }
}

/// Bands pushed onto no rows at all in the order of their tops, none of negative height, end up
/// ordered from the top down, neither overlapping nor touching, and at most [`PART_COUNT`] of them,
/// as long as the arithmetic of each push stays within `i32`.
pub proof fn lemma_pushes_stay_in_order(pushes: Seq<Band>)
    requires
        forall|i: int| 0 <= i < pushes.len() ==> (#[trigger] pushes[i]).height >= 0,
        forall|i: int, j: int|
            0 <= i < j < pushes.len() ==> (#[trigger] pushes[i]).top <= (#[trigger] pushes[j]).top,
        can_push_all(Seq::empty(), pushes),
    ensures
        in_order(push_all(Seq::empty(), pushes)),
        push_all(Seq::empty(), pushes).len() <= PART_COUNT,
{
    lemma_push_all_in_order(Seq::empty(), pushes);
}

/// What a well-formed [`DirtyRows`] holds: at most [`PART_COUNT`] bands, each with a bottom that
/// `i32` can hold.
pub proof fn lemma_rows_wf(rows: DirtyRows)
    requires
        rows.wf(),
    ensures
        rows@.len() <= PART_COUNT,
        all_fit(rows@),
{
}

/// Pushing onto [`DirtyRows`] a band of no negative height that starts no higher than the last
/// one keeps the bands ordered from the top down, neither overlapping nor touching, and at most
/// [`PART_COUNT`]. Afterwards they cover the rows they covered before together with the rows of
/// `band`, unless there was no room for it: then they are unchanged.
pub proof fn lemma_push_keeps_rows(rows: DirtyRows, band: Band)
    requires
        rows.wf(),
        in_order(rows@),
        band.height >= 0,
        rows@.len() > 0 ==> rows@.last().top <= band.top,
        rows.can_push(band),
    ensures
        in_order(rows.pushed(band)),
        rows.pushed(band).len() <= PART_COUNT,
        rows.merges(band) ==> rows.pushed(band).len() == rows@.len(),
        !rows.merges(band) && rows@.len() < PART_COUNT ==> rows.pushed(band).len() == rows@.len()
            + 1,
        !rows.merges(band) && rows@.len() == PART_COUNT ==> rows.pushed(band) == rows@,
        rows.merges(band) || rows@.len() < PART_COUNT ==> forall|row: int|
            #[trigger] covered_by(rows.pushed(band), row) <==> (covered_by(rows@, row)
                || band.covers(row)),
{
    lemma_push_band_rows(rows@, band);
}

} // verus!
