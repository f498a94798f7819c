//! What holds of the navigation graph after a build.

use crate::button_builder::{
    last_position, marker_instructions, state_after_build, MarkerInstruction,
};
use crate::handle::ElementHandle;
use crate::layout::{lemma_neighbors_are_mutual, NavigationLayout};
use crate::navigation::{Direction, NavigationNeighbors, NavigationState};
use vstd::arithmetic::div_mod::lemma_fundamental_div_mod_converse;
use vstd::prelude::*;

verus! {

/// Where `handle` occurs, `last_position` is its last occurrence; where it does
/// not, `last_position` is `-1`.
pub proof fn lemma_last_position(handles: Seq<ElementHandle>, handle: ElementHandle)
    ensures
        handles.contains(handle) ==> {
            &&& 0 <= last_position(handles, handle) < handles.len()
            &&& handles[last_position(handles, handle)] == handle
            &&& forall|j: int|
                last_position(handles, handle) < j < handles.len() ==> handles[j] != handle
        },
        !handles.contains(handle) ==> last_position(handles, handle) == -1,
    decreases handles.len(),
{
    if handles.len() > 0 {
        let front = handles.drop_last();
        lemma_last_position(front, handle);
        if handles.last() != handle {
            assert(forall|j: int| 0 <= j < front.len() ==> front[j] == handles[j]);
            if handles.contains(handle) {
                let j = choose|j: int| 0 <= j < handles.len() && handles[j] == handle;
                assert(front[j] == handle);
            }
        }
    }
}

/// In a sequence without repetition, every element's last position is its
/// only position.
pub proof fn lemma_last_position_unique(handles: Seq<ElementHandle>, i: int)
    requires
        handles.no_duplicates(),
        0 <= i < handles.len(),
    ensures
        last_position(handles, handles[i]) == i,
{
    lemma_last_position(handles, handles[i]);
}

/// After a build over handles that are all different, each of them is
/// registered with the neighbor set that the layout gives to its position.
pub proof fn lemma_build_registers_positions(
    before: NavigationState,
    handles: Seq<ElementHandle>,
    layout: NavigationLayout,
    set_initial_focus: bool,
    i: int,
)
    requires
        handles.no_duplicates(),
        0 <= i < handles.len(),
    ensures
        state_after_build(before, handles, layout, set_initial_focus).lookup(handles[i]) == Some(
            layout.neighbors_at(handles, i),
        ),
{
    lemma_last_position_unique(handles, i);
    assert(handles.contains(handles[i]));
}

/// A build leaves alone every entry whose handle is not among those of the
/// build.
pub proof fn lemma_build_keeps_other_entries(
    before: NavigationState,
    handles: Seq<ElementHandle>,
    layout: NavigationLayout,
    set_initial_focus: bool,
    other: ElementHandle,
)
    requires
        !handles.contains(other),
    ensures
        state_after_build(before, handles, layout, set_initial_focus).lookup(other)
            == before.lookup(other),
{
}

/// In a vertical list of different handles, each element has the one before it
/// above, the one after it below, and nothing to its left or right.
pub proof fn lemma_vertical_build(
    before: NavigationState,
    handles: Seq<ElementHandle>,
    set_initial_focus: bool,
    i: int,
)
    requires
        handles.no_duplicates(),
        0 <= i < handles.len(),
    ensures
        state_after_build(before, handles, NavigationLayout::Vertical, set_initial_focus).lookup(
            handles[i],
        ) == Some(
            NavigationNeighbors {
                up: if i > 0 {
                    Some(handles[i - 1])
                } else {
                    None
                },
                down: if i < handles.len() - 1 {
                    Some(handles[i + 1])
                } else {
                    None
                },
                left: None,
                right: None,
            },
        ),
{
    lemma_build_registers_positions(
        before,
        handles,
        NavigationLayout::Vertical,
        set_initial_focus,
        i,
    );
}

/// In a horizontal list of different handles, each element has the one before
/// it to its left, the one after it to its right, and nothing above or below.
pub proof fn lemma_horizontal_build(
    before: NavigationState,
    handles: Seq<ElementHandle>,
    set_initial_focus: bool,
    i: int,
)
    requires
        handles.no_duplicates(),
        0 <= i < handles.len(),
    ensures
        state_after_build(before, handles, NavigationLayout::Horizontal, set_initial_focus).lookup(
            handles[i],
        ) == Some(
            NavigationNeighbors {
                up: None,
                down: None,
                left: if i > 0 {
                    Some(handles[i - 1])
                } else {
                    None
                },
                right: if i < handles.len() - 1 {
                    Some(handles[i + 1])
                } else {
                    None
                },
            },
        ),
{
    lemma_build_registers_positions(
        before,
        handles,
        NavigationLayout::Horizontal,
        set_initial_focus,
        i,
    );
}

/// In a grid of different handles, the element in row `row` and column `col`
/// has above it the element of the same column one row up, unless it is in the
/// first row; below it the element of the same column one row down, if the
/// grid reaches that far; to its left the element before it, unless it is in
/// the first column; and to its right the element after it, unless it is in
/// the last column or is the last element of all.
pub proof fn lemma_grid_build(
    before: NavigationState,
    handles: Seq<ElementHandle>,
    columns: usize,
    set_initial_focus: bool,
    row: int,
    col: int,
)
    requires
        handles.no_duplicates(),
        columns > 0,
        0 <= row,
        0 <= col < columns,
        row * columns + col < handles.len(),
    ensures
        state_after_build(
            before,
            handles,
            NavigationLayout::Grid { columns },
            set_initial_focus,
        ).lookup(handles[row * columns + col]) == Some(
            NavigationNeighbors {
                up: if row > 0 {
                    Some(handles[(row - 1) * columns + col])
                } else {
                    None
                },
                down: if (row + 1) * columns + col < handles.len() {
                    Some(handles[(row + 1) * columns + col])
                } else {
                    None
                },
                left: if col > 0 {
                    Some(handles[row * columns + col - 1])
                } else {
                    None
                },
                right: if col < columns - 1 && row * columns + col + 1 < handles.len() {
                    Some(handles[row * columns + col + 1])
                } else {
                    None
                },
            },
        ),
{
    let c = columns as int;
    let i = row * c + col;
    lemma_fundamental_div_mod_converse(i, c, row, col);
    assert((row - 1) * c + col == i - c) by (nonlinear_arith)
        requires
            i == row * c + col,
    ;
    assert((row + 1) * c + col == i + c) by (nonlinear_arith)
        requires
            i == row * c + col,
    ;
    lemma_build_registers_positions(
        before,
        handles,
        NavigationLayout::Grid { columns },
        set_initial_focus,
        i,
    );
}

/// A build without handles changes nothing, whatever the graph held before.
pub proof fn lemma_empty_build(
    before: NavigationState,
    layout: NavigationLayout,
    set_initial_focus: bool,
)
    ensures
        state_after_build(before, Seq::empty(), layout, set_initial_focus) == before,
        marker_instructions(Seq::empty(), set_initial_focus) == Seq::<MarkerInstruction>::empty(),
{
    assert(state_after_build(before, Seq::empty(), layout, set_initial_focus) =~= before);
}

/// A build that is asked for the initial focus puts it on the first handle,
/// whatever the layout, and tells the rendering layer so last of all.
pub proof fn lemma_build_initial_focus(
    before: NavigationState,
    handles: Seq<ElementHandle>,
    layout: NavigationLayout,
)
    requires
        handles.len() > 0,
    ensures
        state_after_build(before, handles, layout, true).focused == Some(handles[0]),
        marker_instructions(handles, true).last() == MarkerInstruction::MarkFocused(handles[0]),
{
}

/// After a build over handles that are all different, a move that reaches an
/// element is undone by a move in the opposite direction: the focus is back
/// where it was.
pub proof fn lemma_move_can_be_undone(
    before: NavigationState,
    handles: Seq<ElementHandle>,
    layout: NavigationLayout,
    set_initial_focus: bool,
    i: int,
    direction: Direction,
)
    requires
        handles.no_duplicates(),
        layout.well_formed(),
        0 <= i < handles.len(),
    ensures
        ({
            let built = state_after_build(before, handles, layout, set_initial_focus).with_focus(
                handles[i],
            );
            built.target(direction) is Some ==> built.after_move(direction).after_move(
                direction.opposite(),
            ) == built
        }),
{
    let built = state_after_build(before, handles, layout, set_initial_focus).with_focus(
        handles[i],
    );
    lemma_build_registers_positions(before, handles, layout, set_initial_focus, i);
    if built.target(direction) is Some {
        lemma_neighbors_are_mutual(layout, handles, i, direction);
        let j = choose|j: int|
            0 <= j < handles.len() && layout.neighbors_at(handles, i).toward(direction) == Some(
                handles[j],
            ) && #[trigger] layout.neighbors_at(handles, j).toward(direction.opposite()) == Some(
                handles[i],
            );
        lemma_build_registers_positions(before, handles, layout, set_initial_focus, j);
        let there = built.after_move(direction);
        assert(there.after_move(direction.opposite()) =~= built);
    }
}

} // verus!
