//! Which keys the dongle sees held, and the releases owed for a half whose link drops.
//!
//! A press and the release that follows it reach the dongle as two separate split messages.
//! When the link drops in between, the press would stay in the report as if the key were still
//! down. [`HeldKeysProcessor`] follows which positions are down and, when a half disconnects,
//! names the keys of that half that have to be released. Only the keys seen pressed are
//! released, rather than every key of the half, because a release carries meaning of its own.
use vstd::prelude::*;

verus! {

/// Rows of the keymap.
pub const ROWS: usize = 8;

/// Columns of the keymap. A row of [`HeldKeysProcessor`] is one `u8`, so this cannot exceed 8.
pub const COLS: u8 = 7;

/// Number of halves, indexed by the id of the peripheral.
pub const HALF_COUNT: usize = 2;

/// Position of a key of the matrix.
#[derive(Clone, Copy, PartialEq, Eq, Debug, Structural)]
pub struct KeyPos {
    pub row: u8,
    pub col: u8,
}

/// First row of the half `id` and the row one past its last.
pub open spec fn spec_half_rows(id: int) -> Option<(u8, u8)> {
    if id == 0 {
        Some((0u8, 4u8))
    } else if id == 1 {
        Some((4u8, 8u8))
    } else {
        None
    }
}

/// First row of each half and the row one past its last, by the id of the peripheral.
pub fn half_rows(id: usize) -> (r: Option<(u8, u8)>)
    ensures
        r == spec_half_rows(id as int),
{
    if id == 0 {
        Some((0, 4))
    } else if id == 1 {
        Some((4, 8))
    } else {
        None
    }
}

/// Whether column `col` of the row bits `bits` is set.
pub open spec fn bit(bits: u8, col: u8) -> bool {
    bits & (1u8 << col) != 0
}

/// The releases owed for the held columns below `n` of row `row`, from the left.
pub open spec fn row_releases(row: u8, bits: u8, n: int) -> Seq<KeyPos>
    decreases n,
{
    if n <= 0 {
        Seq::empty()
    } else {
        row_releases(row, bits, n - 1) + (if bit(bits, (n - 1) as u8) {
            seq![KeyPos { row, col: (n - 1) as u8 }]
        } else {
            Seq::empty()
        })
    }
}

/// The releases owed for the held keys of rows `first` up to `end`, from the top row down.
pub open spec fn releases(held: Seq<u8>, first: int, end: int) -> Seq<KeyPos>
    decreases end - first,
{
    if end <= first {
        Seq::empty()
    } else {
        releases(held, first, end - 1) + row_releases((end - 1) as u8, held[end - 1], COLS as int)
    }
}

/// Processor state that holds which keys are down.
pub struct HeldKeysProcessor {
    /// One row of the matrix per entry, one column per bit, set while that key is down.
    held: [u8; ROWS],
}

proof fn lemma_set_bit(b: u8, c: u8, k: u8)
    requires
        c < 8,
        k < 8,
    ensures
        bit(b | (1u8 << c), k) == (k == c || bit(b, k)),
        bit(b & !(1u8 << c), k) == (k != c && bit(b, k)),
{
    assert((b | (1u8 << c)) & (1u8 << k) != 0 <==> (k == c || b & (1u8 << k) != 0))
        by (bit_vector)
        requires
            c < 8,
            k < 8,
    ;
    assert((b & !(1u8 << c)) & (1u8 << k) != 0 <==> (k != c && b & (1u8 << k) != 0))
        by (bit_vector)
        requires
            c < 8,
            k < 8,
    ;
}

proof fn lemma_zero_bits(k: u8)
    requires
        k < 8,
    ensures
        !bit(0u8, k),
{
    assert(0u8 & (1u8 << k) == 0) by (bit_vector);
}

impl HeldKeysProcessor {
    /// Whether the key at `row`, `col` is held.
    pub closed spec fn is_held(&self, row: int, col: int) -> bool {
        0 <= row < ROWS && 0 <= col < COLS && bit(self.held[row], col as u8)
    }

    /// The bits of every row.
    pub closed spec fn rows(&self) -> Seq<u8> {
        self.held@
    }

    /// Builds the processor with no key held.
    pub fn new() -> (r: Self)
        ensures
            forall|row: int, col: int| !r.is_held(row, col),
    {
        let r = HeldKeysProcessor { held: [0; ROWS] };
        assert forall|row: int, col: int| !r.is_held(row, col) by {
            if 0 <= row < ROWS && 0 <= col < COLS {
                lemma_zero_bits(col as u8);
            }
        }
        r
    }

    /// Follows a key going down or coming up.
    ///
    /// `key` is `None` for a position that is not a key of the matrix, which is what a rotary
    /// encoder produces; those, and keys outside the matrix, are left alone.
    pub fn on_keyboard_event(&mut self, key: Option<KeyPos>, pressed: bool)
        ensures
            forall|row: int, col: int|
                #[trigger] final(self).is_held(row, col) == (if key matches Some(k) && k.row == row
                    && k.col == col && row < ROWS && col < COLS {
                    pressed
                } else {
                    old(self).is_held(row, col)
                }),
    {
        let pos = match key {
            Some(pos) => pos,
            None => return ,
        };
        if pos.row as usize >= ROWS {
            return ;
        }
        if pos.col >= COLS {
            return ;
        }
        let row = pos.row as usize;
        let mask: u8 = 1u8 << pos.col;
        let old_bits = self.held[row];
        if pressed {
            self.held[row] = old_bits | mask;
        } else {
            self.held[row] = old_bits & !mask;
        }
        proof {
            assert forall|r: int, c: int| #[trigger]
                self.is_held(r, c) == (if r == pos.row && c == pos.col && r < ROWS && c < COLS {
                    pressed
                } else {
                    old(self).is_held(r, c)
                }) by {
                if 0 <= r < ROWS && 0 <= c < COLS && r == row {
                    lemma_set_bit(old_bits, pos.col, c as u8);
                }
            }
        }
    }

    /// Releases the keys of a half that has disconnected, and returns them in the order their
    /// releases are to be published: from the top row down, and from the left within a row.
    ///
    /// A half that is connected, or an id that is not a half, changes nothing.
    pub fn on_peripheral_connected_event(&mut self, id: usize, connected: bool) -> (released: Vec<
        KeyPos,
    >)
        ensures
            connected || spec_half_rows(id as int).is_none() ==> {
                &&& released@ == Seq::<KeyPos>::empty()
                &&& final(self).rows() == old(self).rows()
            },
            !connected ==> (spec_half_rows(id as int) matches Some((first, end)) ==> {
                &&& released@ == releases(old(self).rows(), first as int, end as int)
                &&& forall|row: int, col: int|
                    #[trigger] final(self).is_held(row, col) == (old(self).is_held(row, col) && !(
                    first <= row < end))
            }),
    {
        let mut released: Vec<KeyPos> = Vec::new();
        if connected {
            return released;
        }
        let (first, end) = match half_rows(id) {
            Some(rows) => rows,
            None => return released,
        };
        let ghost start = self.held@;
        let mut row: u8 = first;
        while row < end
            invariant
                spec_half_rows(id as int) == Some((first, end)),
                first <= row <= end,
                released@ == releases(start, first as int, row as int),
                forall|r: int| 0 <= r < ROWS && !(first <= r < row) ==> #[trigger] self.held@[r]
                    == start[r],
                forall|r: int| first <= r < row ==> #[trigger] self.held@[r] == 0,
            decreases end - row,
        {
            let down = self.held[row as usize];
            self.held[row as usize] = 0;
            let mut col: u8 = 0;
            while col < COLS
                invariant
                    spec_half_rows(id as int) == Some((first, end)),
                    first <= row < end,
                    down == start[row as int],
                    col <= COLS,
                    released@ == releases(start, first as int, row as int) + row_releases(
                        row,
                        down,
                        col as int,
                    ),
                decreases COLS - col,
            {
                if down & (1u8 << col) != 0 {
                    released.push(KeyPos { row, col });
                }
                col = col + 1;
            }
            row = row + 1;
        }
        proof {
            assert forall|r: int, c: int| #[trigger] self.is_held(r, c) == (old(self).is_held(r, c)
                && !(first <= r < end)) by {
                if 0 <= r < ROWS && 0 <= c < COLS && first <= r < end {
                    lemma_zero_bits(c as u8);
                }
            }
        }
        released
    }
}

proof fn lemma_row_releases_contains(row: u8, bits: u8, n: int, k: KeyPos)
    requires
        0 <= n <= 8,
    ensures
        row_releases(row, bits, n).contains(k) <==> (k.row == row && k.col < n && bit(
            bits,
            k.col,
        )),
    decreases n,
{
    if n > 0 {
        lemma_row_releases_contains(row, bits, n - 1, k);
        let prev = row_releases(row, bits, n - 1);
        let tail = if bit(bits, (n - 1) as u8) {
            seq![KeyPos { row, col: (n - 1) as u8 }]
        } else {
            Seq::<KeyPos>::empty()
        };
        assert(row_releases(row, bits, n) == prev + tail);
        if (prev + tail).contains(k) {
            let i = choose|i: int| 0 <= i < (prev + tail).len() && (prev + tail)[i] == k;
            if i < prev.len() {
                assert(prev[i] == k);
            } else {
                assert(tail[i - prev.len()] == k);
            }
        }
        if k.row == row && k.col < n && bit(bits, k.col) {
            if k.col < n - 1 {
                let i = choose|i: int| 0 <= i < prev.len() && prev[i] == k;
                assert((prev + tail)[i] == k);
            } else {
                assert((prev + tail)[prev.len() as int] == k);
            }
        }
    }
}

proof fn lemma_releases_contains(held: Seq<u8>, first: int, end: int, k: KeyPos)
    requires
        0 <= first,
        end <= held.len(),
        end <= 256,
    ensures
        releases(held, first, end).contains(k) <==> (first <= k.row < end && k.col < COLS && bit(
            held[k.row as int],
            k.col,
        )),
    decreases end - first,
{
    if first < end {
        lemma_releases_contains(held, first, end - 1, k);
        lemma_row_releases_contains((end - 1) as u8, held[end - 1], COLS as int, k);
        let prev = releases(held, first, end - 1);
        let tail = row_releases((end - 1) as u8, held[end - 1], COLS as int);
        if (prev + tail).contains(k) {
            let i = choose|i: int| 0 <= i < (prev + tail).len() && (prev + tail)[i] == k;
            if i < prev.len() {
                assert(prev[i] == k);
            } else {
                assert(tail[i - prev.len()] == k);
            }
        }
        if first <= k.row < end && k.col < COLS && bit(held[k.row as int], k.col) {
            if k.row < end - 1 {
                let i = choose|i: int| 0 <= i < prev.len() && prev[i] == k;
                assert((prev + tail)[i] == k);
            } else {
                let i = choose|i: int| 0 <= i < tail.len() && tail[i] == k;
                assert((prev + tail)[prev.len() + i] == k);
            }
        }
    }
}

/// A disconnect of a half releases exactly the keys of that half that were held: every key it
/// names was held, and every held key of the half is named.
pub proof fn lemma_disconnect_releases_exactly_held(keys: HeldKeysProcessor, id: int, k: KeyPos)
    requires
        spec_half_rows(id) is Some,
    ensures
        ({
            let (first, end) = spec_half_rows(id).unwrap();
            releases(keys.rows(), first as int, end as int).contains(k) <==> (first <= k.row < end
                && keys.is_held(k.row as int, k.col as int))
        }),
{
    let (first, end) = spec_half_rows(id).unwrap();
    lemma_releases_contains(keys.rows(), first as int, end as int, k);
}

/// Once no key of a half is held, its disconnect releases nothing; this is what every disconnect
/// of the half after the first one finds.
pub proof fn lemma_nothing_held_nothing_released(keys: HeldKeysProcessor, id: int)
    requires
        spec_half_rows(id) is Some,
        forall|row: int, col: int|
            spec_half_rows(id).unwrap().0 <= row < spec_half_rows(id).unwrap().1 ==> !(
            #[trigger] keys.is_held(row, col)),
    ensures
        releases(keys.rows(), spec_half_rows(id).unwrap().0 as int, spec_half_rows(id).unwrap().1 as int)
            == Seq::<KeyPos>::empty(),
{
    let (first, end) = spec_half_rows(id).unwrap();
    let r = releases(keys.rows(), first as int, end as int);
    if r.len() > 0 {
        let k = r[0];
        assert(r.contains(k));
        lemma_releases_contains(keys.rows(), first as int, end as int, k);
        assert(keys.is_held(k.row as int, k.col as int));
    }
}

} // verus!
