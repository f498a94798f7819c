//! Layout shapes, and the neighbor set that each shape gives to each element.

use crate::handle::ElementHandle;
use crate::navigation::{Direction, NavigationNeighbors};
use vstd::arithmetic::div_mod::{lemma_fundamental_div_mod, lemma_fundamental_div_mod_converse};
use vstd::prelude::*;

verus! {

/// The shape in which a sequence of elements is laid out on screen.
#[derive(Clone, Copy, Debug, PartialEq, Eq, Structural)]
pub enum NavigationLayout {
    /// One column, first element on top.
    Vertical,
    /// One row, first element on the left.
    Horizontal,
    /// Rows of `columns` elements, filled left to right and top to bottom; the
    /// last row may be shorter.
    Grid { columns: usize },
}

/// Why a layout cannot be used.
#[derive(Clone, Copy, Debug, PartialEq, Eq, Structural)]
pub enum LayoutError {
    /// A grid was asked for with no columns at all.
    ZeroColumns,
}

/// The element just before position `i`, if there is one.
pub open spec fn element_before(handles: Seq<ElementHandle>, i: int) -> Option<ElementHandle> {
    if i > 0 {
        Some(handles[i - 1])
    } else {
        None
    }
}

/// The element just after position `i`, if there is one.
pub open spec fn element_after(handles: Seq<ElementHandle>, i: int) -> Option<ElementHandle> {
    if i < handles.len() - 1 {
        Some(handles[i + 1])
    } else {
        None
    }
}

impl NavigationLayout {
    /// A layout is usable unless it is a grid without columns.
    pub open spec fn well_formed(self) -> bool {
        match self {
            NavigationLayout::Grid { columns } => columns > 0,
            _ => true,
        }
    }

    /// The neighbor set of the element at position `i` of `handles` under this
    /// layout.
    ///
    /// In a grid of `c` columns the element at position `i` stands in row
    /// `i / c` and column `i % c`. It has a right neighbor unless it is in the
    /// last column or is the last element of all, and a neighbor below only if
    /// position `i + c` exists, which it may not in front of a short last row.
    pub open spec fn neighbors_at(
        self,
        handles: Seq<ElementHandle>,
        i: int,
    ) -> NavigationNeighbors {
        match self {
            NavigationLayout::Vertical => NavigationNeighbors {
                up: element_before(handles, i),
                down: element_after(handles, i),
                left: None,
                right: None,
            },
            NavigationLayout::Horizontal => NavigationNeighbors {
                up: None,
                down: None,
                left: element_before(handles, i),
                right: element_after(handles, i),
            },
            NavigationLayout::Grid { columns } => {
                let c = columns as int;
                let row = i / c;
                let col = i % c;
                NavigationNeighbors {
                    up: if row > 0 {
                        Some(handles[i - c])
                    } else {
                        None
                    },
                    down: if i + c < handles.len() {
                        Some(handles[i + c])
                    } else {
                        None
                    },
                    left: if col > 0 {
                        Some(handles[i - 1])
                    } else {
                        None
                    },
                    right: if col < c - 1 && i + 1 < handles.len() {
                        Some(handles[i + 1])
                    } else {
                        None
                    },
                }
            },
        }
    }

    /// Whether the layout is usable: every layout is, except a grid without
    /// columns.
    pub fn is_valid(&self) -> (valid: bool)
        ensures
            valid == self.well_formed(),
    {
        match self {
            NavigationLayout::Grid { columns } => *columns > 0,
            _ => true,
        }
    }

    /// Computes the neighbor set of the element at position `index`.
    pub(crate) fn compute_neighbors(
        &self,
        handles: &Vec<ElementHandle>,
        index: usize,
    ) -> (neighbors: NavigationNeighbors)
        requires
            self.well_formed(),
            index < handles.len(),
        ensures
            neighbors == self.neighbors_at(handles@, index as int),
    {
        let count = handles.len();
        let before = if index > 0 {
            Some(handles[index - 1])
        } else {
            None
        };
        let after = if index < count - 1 {
            Some(handles[index + 1])
        } else {
            None
        };
        match self {
            NavigationLayout::Vertical => NavigationNeighbors::new().with_up(before).with_down(
                after,
            ),
            NavigationLayout::Horizontal => NavigationNeighbors::new().with_left(
                before,
            ).with_right(after),
            NavigationLayout::Grid { columns } => {
                let columns: usize = *columns;
                let row: usize = index / columns;
                let col: usize = index % columns;
                assert(row > 0 ==> index >= columns) by (nonlinear_arith)
                    requires
                        row == index / columns,
                        columns > 0,
                ;
                let up = if row > 0 {
                    Some(handles[index - columns])
                } else {
                    None
                };
                let down = if columns < count - index {
                    Some(handles[index + columns])
                } else {
                    None
                };
                let left = if col > 0 {
                    Some(handles[index - 1])
                } else {
                    None
                };
                let right = if col < columns - 1 && index + 1 < count {
                    Some(handles[index + 1])
                } else {
                    None
                };
                NavigationNeighbors::new().with_up(up).with_down(down).with_left(left).with_right(
                    right,
                )
            },
        }
    }
}

/// Position `i` split into its row and column in a grid of `c` columns.
proof fn lemma_grid_position(i: int, c: int)
    requires
        0 <= i,
        0 < c,
    ensures
        i == (i / c) * c + i % c,
        0 <= i / c,
        0 <= i % c < c,
{
    lemma_fundamental_div_mod(i, c);
    assert(c * (i / c) == (i / c) * c) by (nonlinear_arith);
}

/// The neighbor sets that a layout gives agree with each other: whoever is
/// named as a neighbor is an element of the same sequence, and names the
/// element it was found from as its neighbor in the opposite direction.
pub proof fn lemma_neighbors_are_mutual(
    layout: NavigationLayout,
    handles: Seq<ElementHandle>,
    i: int,
    direction: Direction,
)
    requires
        layout.well_formed(),
        0 <= i < handles.len(),
        layout.neighbors_at(handles, i).toward(direction) is Some,
    ensures
        exists|j: int|
            0 <= j < handles.len() && layout.neighbors_at(handles, i).toward(direction) == Some(
                handles[j],
            ) && #[trigger] layout.neighbors_at(handles, j).toward(direction.opposite()) == Some(
                handles[i],
            ),
{
    let j = match layout {
        NavigationLayout::Vertical => match direction {
            Direction::Up => i - 1,
            _ => i + 1,
        },
        NavigationLayout::Horizontal => match direction {
            Direction::Left => i - 1,
            _ => i + 1,
        },
        NavigationLayout::Grid { columns } => {
            let c = columns as int;
            lemma_grid_position(i, c);
            match direction {
                Direction::Up => {
                    assert(i >= c) by (nonlinear_arith)
                        requires
                            i == (i / c) * c + i % c,
                            i / c > 0,
                            i % c >= 0,
                            c > 0,
                    ;
                    i - c
                },
                Direction::Down => {
                    assert(i + c == (i / c + 1) * c + i % c) by (nonlinear_arith)
                        requires
                            i == (i / c) * c + i % c,
                    ;
                    lemma_fundamental_div_mod_converse(i + c, c, i / c + 1, i % c);
                    i + c
                },
                Direction::Left => {
                    lemma_fundamental_div_mod_converse(i - 1, c, i / c, i % c - 1);
                    i - 1
                },
                Direction::Right => {
                    lemma_fundamental_div_mod_converse(i + 1, c, i / c, i % c + 1);
                    i + 1
                },
            }
        },
    };
    assert(layout.neighbors_at(handles, j).toward(direction.opposite()) == Some(handles[i]));
}

} // verus!
