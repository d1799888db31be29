//! MWA dipole delays.

use vstd::prelude::*;

use super::delay_grid::{delay_columns, delay_rows, rectangular, DelayGrid};
use super::error::BeamError;
use crate::copies::copy_of;

verus! {

/// The delay of a dipole that is "dead".
pub const DEAD_DIPOLE: u32 = 32;

/// An enum to track whether MWA dipole delays are provided and/or necessary.
#[derive(Debug)]
pub enum Delays {
    /// Delays are fully specified.
    Full(DelayGrid),

    /// Delays are specified for a single tile. We must assume that these
    /// dipoles apply to all tiles.
    Partial(Vec<u32>),
}

impl Clone for Delays {
    fn clone(&self) -> (r: Self)
        ensures
            r.agrees(*self),
    {
        match self {
            Delays::Full(a) => Delays::Full(a.clone()),
            Delays::Partial(v) => Delays::Partial(copy_of(v.as_slice())),
        }
    }
}

/// Does one of the first `n` rows have a delay below 32 for this dipole? There
/// may be 32 columns, 16 for X dipoles and 16 for Y: both count for the dipole.
pub open spec fn dipole_alive(rows: Seq<Seq<u32>>, n: int, dipole: int) -> bool {
    exists|r: int, c: int|
        0 <= r < n && 0 <= c < rows[r].len() && c % 16 == dipole && (#[trigger] rows[r][c])
            < DEAD_DIPOLE
}

/// Do the first `n` rows give every dipole a delay below 32?
pub open spec fn all_alive(rows: Seq<Seq<u32>>, n: int) -> bool {
    forall|dipole: int| 0 <= dipole < 16 ==> dipole_alive(rows, n, dipole)
}

/// The number of leading rows that settle the ideal delays: up to the first row
/// that leaves no dipole dead, looking from row `from` on.
pub open spec fn rows_used(rows: Seq<Seq<u32>>, from: int) -> int
    decreases rows.len() - from,
{
    if from >= rows.len() {
        rows.len() as int
    } else if all_alive(rows, from + 1) {
        from + 1
    } else {
        rows_used(rows, from + 1)
    }
}

/// Is `delay` the smallest delay that the first `n` rows have for this dipole,
/// or 32 where they have none below?
pub open spec fn is_smallest(rows: Seq<Seq<u32>>, n: int, dipole: int, delay: u32) -> bool {
    &&& delay <= DEAD_DIPOLE
    &&& forall|r: int, c: int|
        0 <= r < n && 0 <= c < rows[r].len() && c % 16 == dipole ==> delay <= #[trigger] rows[r][c]
    &&& delay == DEAD_DIPOLE || exists|r: int, c: int|
        0 <= r < n && 0 <= c < rows[r].len() && c % 16 == dipole && (#[trigger] rows[r][c]) == delay
}

/// The last of `delays` that belongs to this dipole, or 32 where none does.
pub open spec fn last_delay(delays: Seq<u32>, dipole: int) -> u32 {
    if dipole < delays.len() {
        delays[dipole + 16 * ((delays.len() - 1 - dipole) / 16)]
    } else {
        DEAD_DIPOLE
    }
}

impl Delays {
    /// Are both the same delays?
    pub open spec fn agrees(self, other: Delays) -> bool {
        match (self, other) {
            (Delays::Full(a), Delays::Full(b)) => delay_rows(a) == delay_rows(b) && delay_columns(a)
                == delay_columns(b),
            (Delays::Partial(v), Delays::Partial(w)) => v@ == w@,
            _ => false,
        }
    }

    /// Are these the ideal delays of `self`?
    pub open spec fn ideal(self, ideal: Seq<u32>) -> bool {
        &&& ideal.len() == 16
        &&& forall|dipole: int|
            0 <= dipole < 16 ==> match self {
                Delays::Partial(v) => #[trigger] ideal[dipole] == last_delay(v@, dipole),
                Delays::Full(a) => is_smallest(
                    delay_rows(a),
                    rows_used(delay_rows(a), 0),
                    dipole,
                    ideal[dipole],
                ),
            }
    }

    /// Are these delays sensible for one tile: 16 of them, none above 32?
    pub open spec fn sensible(delays: Seq<u32>) -> bool {
        &&& delays.len() == 16
        &&& forall|i: int| 0 <= i < delays.len() ==> #[trigger] delays[i] <= DEAD_DIPOLE
    }

    /// The delays of some tiles could contain 32 (which means that that
    /// particular dipole is "dead"). It is sometimes useful to get the "ideal"
    /// dipole delays; i.e. what the delays for each tile would be if all
    /// dipoles were alive.
    pub fn get_ideal_delays(&self) -> (ideal: [u32; 16])
        ensures
            self.ideal(ideal@),
    {
        match self {
            Delays::Partial(v) => ideal_of_partial(v),
            Delays::Full(a) => ideal_of_full(a),
        }
    }

    /// Some tiles' delays might contain 32s (i.e. dead dipoles), and we might
    /// want to ignore that. Take the ideal delays and replace all tiles' delays
    /// with them.
    pub fn set_to_ideal_delays(&mut self)
        requires
            *old(self) matches Delays::Full(a) ==> delay_rows(a).len() > 0 ==> delay_columns(a)
                == 16,
        ensures
            match (*old(self), *final(self)) {
                (Delays::Partial(v), Delays::Partial(w)) => w == v,
                (Delays::Full(a), Delays::Full(b)) => {
                    &&& delay_columns(b) == delay_columns(a)
                    &&& delay_rows(b).len() == delay_rows(a).len()
                    &&& exists|ideal: Seq<u32>| #[trigger]
                        old(self).ideal(ideal) && forall|r: int|
                            0 <= r < delay_rows(b).len() ==> #[trigger] delay_rows(b)[r] == ideal
                },
                _ => false,
            },
    {
        let ideal: [u32; 16] = self.get_ideal_delays();
        match self {
            // In this case, the delays are the ideal delays.
            Delays::Full(a) => {
                let (num_rows, num_columns) = a.shape();
                assign_all_rows(a, num_rows, &ideal);
            },
            // In this case, no meaningful change can be made.
            Delays::Partial(_) => {},
        }
        assert(old(self).ideal(ideal@));
    }

    /// Parse user-provided dipole delays.
    pub fn parse(delays: Vec<u32>) -> (r: Result<Delays, BeamError>)
        ensures
            match r {
                Ok(d) => Delays::sensible(delays@) && d == Delays::Partial(delays),
                Err(e) => !Delays::sensible(delays@) && e == BeamError::BadDelays,
            },
    {
        if delays.len() != 16 || any_above_dead(&delays) {
            return Err(BeamError::BadDelays);
        }
        Ok(Delays::Partial(delays))
    }
}

/// Is there a delay above 32?
pub(crate) fn any_above_dead(delays: &Vec<u32>) -> (r: bool)
    ensures
        r <==> exists|i: int| 0 <= i < delays@.len() && #[trigger] delays@[i] > DEAD_DIPOLE,
{
    let mut i: usize = 0;
    while i < delays.len()
        invariant
            i <= delays@.len(),
            forall|j: int| 0 <= j < i ==> #[trigger] delays@[j] <= DEAD_DIPOLE,
        decreases delays.len() - i,
    {
        if delays[i] > DEAD_DIPOLE {
            return true;
        }
        i = i + 1;
    }
    false
}

fn assign_all_rows(a: &mut DelayGrid, num_rows: usize, ideal: &[u32; 16])
    requires
        num_rows == delay_rows(*old(a)).len(),
        num_rows > 0 ==> delay_columns(*old(a)) == 16,
    ensures
        delay_columns(*final(a)) == delay_columns(*old(a)),
        delay_rows(*final(a)).len() == num_rows,
        forall|r: int| 0 <= r < num_rows ==> #[trigger] delay_rows(*final(a))[r] == ideal@,
{
    let mut r: usize = 0;
    while r < num_rows
        invariant
            r <= num_rows,
            num_rows == delay_rows(*a).len(),
            num_rows > 0 ==> delay_columns(*a) == 16,
            delay_columns(*a) == delay_columns(*old(a)),
            forall|k: int| 0 <= k < r ==> #[trigger] delay_rows(*a)[k] == ideal@,
        decreases num_rows - r,
    {
        a.assign_row(r, ideal);
        r = r + 1;
    }
}

fn ideal_of_partial(v: &Vec<u32>) -> (ideal: [u32; 16])
    ensures
        forall|d: int| 0 <= d < 16 ==> #[trigger] ideal@[d] == last_delay(v@, d),
{
    let mut ideal: [u32; 16] = [32; 16];
    let mut i: usize = 0;
    assert(v@.subrange(0, 0) =~= Seq::<u32>::empty());
    while i < v.len()
        invariant
            i <= v@.len(),
            forall|d: int|
                0 <= d < 16 ==> #[trigger] ideal@[d] == last_delay(v@.subrange(0, i as int), d),
        decreases v.len() - i,
    {
        let ghost before = ideal@;
        ideal[i % 16] = v[i];
        assert forall|d: int| 0 <= d < 16 implies #[trigger] ideal@[d] == last_delay(
            v@.subrange(0, i + 1),
            d,
        ) by {
            assert(before[d] == last_delay(v@.subrange(0, i as int), d));
        }
        i = i + 1;
    }
    assert(v@.subrange(0, i as int) =~= v@);
    ideal
}

fn ideal_of_full(a: &DelayGrid) -> (ideal: [u32; 16])
    ensures
        forall|d: int|
            0 <= d < 16 ==> #[trigger] is_smallest(
                delay_rows(*a),
                rows_used(delay_rows(*a), 0),
                d,
                ideal@[d],
            ),
{
    let (num_rows, num_columns) = a.shape();
    let ghost rows = delay_rows(*a);
    let mut ideal: [u32; 16] = [32; 16];
    let mut r: usize = 0;
    while r < num_rows
        invariant
            rows == delay_rows(*a),
            num_rows == rows.len(),
            num_columns == delay_columns(*a),
            rectangular(*a),
            r <= num_rows,
            rows_used(rows, 0) == rows_used(rows, r as int),
            forall|d: int| 0 <= d < 16 ==> #[trigger] is_smallest(rows, r as int, d, ideal@[d]),
        decreases num_rows - r,
    {
        fold_row(a, r, num_columns, &mut ideal);
        let alive: bool = none_dead(&ideal);
        proof {
            assert(alive <==> all_alive(rows, r + 1)) by {
                lemma_alive_when_smallest(rows, r + 1, ideal@);
            }
        }
        if alive {
            assert(rows_used(rows, 0) == r + 1);
            return ideal;
        }
        r = r + 1;
    }
    ideal
}

/// Take row `r` into the smallest delays of the rows before it.
fn fold_row(a: &DelayGrid, r: usize, num_columns: usize, ideal: &mut [u32; 16])
    requires
        r < delay_rows(*a).len(),
        num_columns == delay_columns(*a),
        rectangular(*a),
        forall|d: int|
            0 <= d < 16 ==> #[trigger] is_smallest(delay_rows(*a), r as int, d, old(ideal)@[d]),
    ensures
        forall|d: int|
            0 <= d < 16 ==> #[trigger] is_smallest(delay_rows(*a), r + 1, d, final(ideal)@[d]),
{
    let ghost rows = delay_rows(*a);
    let mut c: usize = 0;
    assert(rows[r as int].len() == num_columns);
    assert forall|d: int| 0 <= d < 16 implies #[trigger] smallest_so_far(
        rows,
        r as int,
        0,
        d,
        ideal@[d],
    ) by {
        assert(is_smallest(rows, r as int, d, ideal@[d]));
    }
    while c < num_columns
        invariant
            rows == delay_rows(*a),
            r < rows.len(),
            num_columns == delay_columns(*a),
            rows[r as int].len() == num_columns,
            c <= num_columns,
            forall|d: int|
                0 <= d < 16 ==> #[trigger] smallest_so_far(rows, r as int, c as int, d, ideal@[d]),
        decreases num_columns - c,
    {
        let ghost before = ideal@;
        let delay: u32 = a.get(r, c);
        if delay < ideal[c % 16] {
            ideal[c % 16] = delay;
        }
        assert forall|d: int| 0 <= d < 16 implies #[trigger] smallest_so_far(
            rows,
            r as int,
            c + 1,
            d,
            ideal@[d],
        ) by {
            assert(smallest_so_far(rows, r as int, c as int, d, before[d]));
            assert(rows[r as int][c as int] == delay);
        }
        c = c + 1;
    }
    assert forall|d: int| 0 <= d < 16 implies #[trigger] is_smallest(rows, r + 1, d, ideal@[d]) by {
        assert(smallest_so_far(rows, r as int, c as int, d, ideal@[d]));
    }
}

/// Like `is_smallest` over the first `n` rows and the first `m` columns of the
/// row after them.
spec fn smallest_so_far(rows: Seq<Seq<u32>>, n: int, m: int, dipole: int, delay: u32) -> bool {
    &&& delay <= DEAD_DIPOLE
    &&& forall|r: int, c: int|
        0 <= r <= n && 0 <= c < rows[r].len() && (r < n || c < m) && c % 16 == dipole ==> delay
            <= #[trigger] rows[r][c]
    &&& delay == DEAD_DIPOLE || exists|r: int, c: int|
        0 <= r <= n && 0 <= c < rows[r].len() && (r < n || c < m) && c % 16 == dipole && (
        #[trigger] rows[r][c]) == delay
}

fn none_dead(ideal: &[u32; 16]) -> (r: bool)
    ensures
        r <==> forall|d: int| 0 <= d < 16 ==> #[trigger] ideal@[d] < DEAD_DIPOLE,
{
    let mut i: usize = 0;
    while i < 16
        invariant
            i <= 16,
            forall|d: int| 0 <= d < i ==> #[trigger] ideal@[d] < DEAD_DIPOLE,
        decreases 16 - i,
    {
        if ideal[i] >= DEAD_DIPOLE {
            return false;
        }
        i = i + 1;
    }
    true
}

proof fn lemma_alive_when_smallest(rows: Seq<Seq<u32>>, n: int, ideal: Seq<u32>)
    requires
        forall|d: int| 0 <= d < 16 ==> #[trigger] is_smallest(rows, n, d, ideal[d]),
    ensures
        all_alive(rows, n) <==> forall|d: int| 0 <= d < 16 ==> #[trigger] ideal[d] < DEAD_DIPOLE,
{
    if all_alive(rows, n) {
        assert forall|d: int| 0 <= d < 16 implies #[trigger] ideal[d] < DEAD_DIPOLE by {
            assert(is_smallest(rows, n, d, ideal[d]));
            assert(dipole_alive(rows, n, d));
        }
    }
    if forall|d: int| 0 <= d < 16 ==> #[trigger] ideal[d] < DEAD_DIPOLE {
        assert forall|d: int| 0 <= d < 16 implies dipole_alive(rows, n, d) by {
            assert(is_smallest(rows, n, d, ideal[d]));
            assert(ideal[d] < DEAD_DIPOLE);
        }
    }
}

proof fn lemma_rows_used_bounds(rows: Seq<Seq<u32>>, from: int)
    requires
        0 <= from,
    ensures
        rows_used(rows, from) <= rows.len(),
        from < rows.len() ==> rows_used(rows, from) > from,
    decreases rows.len() - from,
{
    if from < rows.len() && !all_alive(rows, from + 1) {
        lemma_rows_used_bounds(rows, from + 1);
    }
}

/// Delays have one set of ideal delays.
pub proof fn lemma_ideal_is_unique(delays: Delays, a: Seq<u32>, b: Seq<u32>)
    requires
        delays.ideal(a),
        delays.ideal(b),
    ensures
        a == b,
{
    assert forall|d: int| 0 <= d < 16 implies a[d] == b[d] by {
        assert(a[d] == a[d] && b[d] == b[d]);
        if let Delays::Full(grid) = delays {
            let rows = delay_rows(grid);
            let n = rows_used(rows, 0);
            assert(is_smallest(rows, n, d, a[d]) && is_smallest(rows, n, d, b[d]));
        }
    }
    assert(a =~= b);
}

/// The ideal delays of user-provided delays are these delays.
pub proof fn lemma_parsed_delays_are_ideal(delays: Vec<u32>)
    requires
        Delays::sensible(delays@),
    ensures
        Delays::Partial(delays).ideal(delays@),
{
}

/// No ideal delay of a full set of delays is above 32.
pub proof fn lemma_ideal_at_most_dead(grid: DelayGrid, ideal: Seq<u32>)
    requires
        Delays::Full(grid).ideal(ideal),
    ensures
        Delays::sensible(ideal),
{
    assert forall|i: int| 0 <= i < ideal.len() implies #[trigger] ideal[i] <= DEAD_DIPOLE by {
        assert(is_smallest(delay_rows(grid), rows_used(delay_rows(grid), 0), i, ideal[i]));
    }
}

/// Where all tiles have been given the ideal delays, these are their ideal
/// delays still.
pub proof fn lemma_ideal_delays_are_kept(before: DelayGrid, after: DelayGrid, ideal: Seq<u32>)
    requires
        Delays::Full(before).ideal(ideal),
        delay_rows(after).len() == delay_rows(before).len(),
        forall|r: int| 0 <= r < delay_rows(after).len() ==> #[trigger] delay_rows(after)[r] == ideal,
    ensures
        Delays::Full(after).ideal(ideal),
{
    let rows = delay_rows(after);
    let n = rows_used(rows, 0);
    lemma_rows_used_bounds(rows, 0);
    lemma_rows_used_bounds(delay_rows(before), 0);
    assert forall|d: int| 0 <= d < 16 implies is_smallest(rows, n, d, #[trigger] ideal[d]) by {
        assert(is_smallest(delay_rows(before), rows_used(delay_rows(before), 0), d, ideal[d]));
        if rows.len() > 0 {
            assert(rows[0][d] == ideal[d]);
        }
    }
}

/// Where the tiles agree but for dead dipoles, the ideal delays are what all
/// tiles would have if every dipole were alive; only a dipole that no tile has
/// alive stays at 32.
pub proof fn lemma_ideal_delays_of_agreeing_tiles(grid: DelayGrid, ideal: Seq<u32>, common: Seq<u32>)
    requires
        Delays::Full(grid).ideal(ideal),
        common.len() == 16,
        forall|d: int| 0 <= d < 16 ==> #[trigger] common[d] < DEAD_DIPOLE,
        forall|r: int, c: int|
            0 <= r < delay_rows(grid).len() && 0 <= c < delay_rows(grid)[r].len() ==> (
            #[trigger] delay_rows(grid)[r][c]) == DEAD_DIPOLE || delay_rows(grid)[r][c] == common[c
                % 16],
    ensures
        forall|d: int|
            0 <= d < 16 ==> #[trigger] ideal[d] == (if dipole_alive(
                delay_rows(grid),
                delay_rows(grid).len() as int,
                d,
            ) {
                common[d]
            } else {
                DEAD_DIPOLE
            }),
{
    let rows = delay_rows(grid);
    let n = rows_used(rows, 0);
    lemma_rows_used_bounds(rows, 0);
    lemma_rows_used_settles(rows, 0);
    assert forall|d: int| 0 <= d < 16 implies #[trigger] ideal[d] == (if dipole_alive(
        rows,
        rows.len() as int,
        d,
    ) {
        common[d]
    } else {
        DEAD_DIPOLE
    }) by {
        assert(is_smallest(rows, n, d, ideal[d]));
        assert(common[d] < DEAD_DIPOLE);
        if dipole_alive(rows, rows.len() as int, d) {
            assert(dipole_alive(rows, n, d));
        }
    }
}

/// The rows that are used settle which dipoles are alive.
proof fn lemma_rows_used_settles(rows: Seq<Seq<u32>>, from: int)
    requires
        0 <= from,
    ensures
        rows_used(rows, from) == rows.len() || all_alive(rows, rows_used(rows, from)),
    decreases rows.len() - from,
{
    if from < rows.len() && !all_alive(rows, from + 1) {
        lemma_rows_used_settles(rows, from + 1);
    }
}

} // verus!
