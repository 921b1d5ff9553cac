//! The computable part of the renderer: which borders each grid cell draws,
//! which cell is highlighted, and how tall a menu row is.
use vstd::prelude::*;

use crate::app::{App, AppState, Coordinate};
use vstd::string::StringSliceAdditionalSpecFns;

verus! {

/// Which of its four edges a grid cell draws.
#[derive(Clone, Copy, Debug, PartialEq, Eq)]
pub struct CellBorders {
    pub top: bool,
    pub right: bool,
    pub bottom: bool,
    pub left: bool,
}

/// The borders the cell at `c` draws, so that every visible edge of the 3x3
/// grid is drawn by exactly one cell: the bottom row draws its top edge, the
/// top row its bottom edge, the middle column both vertical edges, and the
/// outer columns their inner vertical edge except beside the borderless
/// middle-row outer cells.
pub open spec fn borders_of(c: Coordinate) -> CellBorders {
    CellBorders {
        top: c.0 == 2,
        right: c.1 == 1 || (c.1 == 0 && c.0 != 1),
        bottom: c.0 == 0,
        left: c.1 == 1 || (c.1 == 2 && c.0 != 1),
    }
}

/// Whether the cell at `c` is the highlighted one: only while a game runs,
/// and only for the cursor's cell.
pub open spec fn cell_active_in(s: AppState, c: Coordinate) -> bool {
    match s {
        AppState::InitialMenu => false,
        AppState::RunningGame(active) => active == c,
    }
}

/// One cell of the rendered grid, tied to the application it is drawn for.
pub struct GridCell<'a, 'b> {
    pub coordinate: Coordinate,
    pub app: &'b App<'a>,
}

impl<'a, 'b> GridCell<'a, 'b> {
    /// The borders this cell draws; the grid exists only while a game runs.
    pub fn determine_borders(&self) -> (b: CellBorders)
        requires
            self.app.app_state matches AppState::RunningGame(_),
        ensures
            b == borders_of(self.coordinate),
    {
        let (r, c): Coordinate = self.coordinate;
        CellBorders {
            top: r == 2,
            right: c == 1 || (c == 0 && r != 1),
            bottom: r == 0,
            left: c == 1 || (c == 2 && r != 1),
        }
    }

    /// Whether this cell carries the cursor highlight.
    pub fn is_active(&self) -> (r: bool)
        ensures
            r == cell_active_in(self.app.app_state, self.coordinate),
    {
        match self.app.app_state {
            AppState::InitialMenu => false,
            AppState::RunningGame(active_cell_coordinate) => {
                active_cell_coordinate.0 == self.coordinate.0
                    && active_cell_coordinate.1 == self.coordinate.1
            },
        }
    }
}

/// The number of newline bytes in `bytes`.
pub open spec fn newline_count(bytes: Seq<u8>) -> nat
    decreases bytes.len(),
{
    if bytes.len() == 0 {
        0
    } else {
        newline_count(bytes.drop_last()) + if bytes.last() == 10u8 {
            1nat
        } else {
            0nat
        }
    }
}

/// The greatest newline count among the columns of one menu row.
pub open spec fn max_newline_count(columns: Seq<&str>) -> nat
    decreases columns.len(),
{
    if columns.len() == 0 {
        0
    } else {
        let rest = max_newline_count(columns.drop_last());
        let last = newline_count(columns.last().spec_bytes());
        if last > rest {
            last
        } else {
            rest
        }
    }
}

/// Counts the newlines in `s`.
pub fn count_newlines(s: &str) -> (n: usize)
    ensures
        n == newline_count(s.spec_bytes()),
{
    let bytes: &[u8] = s.as_bytes();
    let mut n: usize = 0;
    let mut i: usize = 0;
    while i < bytes.len()
        invariant
            bytes@ == s.spec_bytes(),
            i <= bytes@.len(),
            n == newline_count(bytes@.take(i as int)),
            n <= i,
        decreases bytes@.len() - i,
    {
        proof {
            assert(bytes@.take(i + 1).drop_last() =~= bytes@.take(i as int));
            assert(bytes@.take(i + 1).last() == bytes@[i as int]);
        }
        if bytes[i] == 10u8 {
            n = n + 1;
        }
        i = i + 1;
    }
    proof {
        assert(bytes@.take(i as int) =~= bytes@);
    }
    n
}

/// The display height of one menu row: one more than the greatest newline
/// count among its columns.
pub fn menu_row_height(columns: &Vec<&str>) -> (h: usize)
    requires
        max_newline_count(columns@) < usize::MAX,
    ensures
        h == max_newline_count(columns@) + 1,
{
    let mut best: usize = 0;
    let mut i: usize = 0;
    while i < columns.len()
        invariant
            i <= columns@.len(),
            best == max_newline_count(columns@.take(i as int)),
            max_newline_count(columns@) < usize::MAX,
        decreases columns@.len() - i,
    {
        proof {
            assert(columns@.take(i + 1).drop_last() =~= columns@.take(i as int));
            assert(columns@.take(i + 1).last() == columns@[i as int]);
        }
        let count: usize = count_newlines(columns[i]);
        if count > best {
            best = count;
        }
        i = i + 1;
    }
    proof {
        assert(columns@.take(i as int) =~= columns@);
    }
    best + 1
}

} // verus!
