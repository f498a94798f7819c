//! Building the navigation graph of one screen from its buttons, in display
//! order.

use crate::handle::ElementHandle;
use crate::layout::{LayoutError, NavigationLayout};
use crate::navigation::{NavigationGraph, NavigationNeighbors, NavigationState};
use vstd::prelude::*;

verus! {

/// What the rendering layer is told to do to one element after a build.
#[derive(Clone, Copy, Debug, PartialEq, Eq, Structural)]
pub enum MarkerInstruction {
    /// Mark the element as one that can take the focus.
    MarkFocusable(ElementHandle),
    /// Mark the element as the one that holds the focus.
    MarkFocused(ElementHandle),
}

/// The greatest position at which `handle` occurs in `handles`, or `-1` where
/// it does not occur.
pub open spec fn last_position(handles: Seq<ElementHandle>, handle: ElementHandle) -> int
    decreases handles.len(),
{
    if handles.len() == 0 {
        -1
    } else if handles.last() == handle {
        handles.len() - 1
    } else {
        last_position(handles.drop_last(), handle)
    }
}

/// The neighbor sets after a build over `handles`: every handle of the build
/// gets the neighbor set of its position (of its last position, should it
/// occur more than once), and every other entry stays as it was.
pub open spec fn adjacency_after_build(
    before: Map<ElementHandle, NavigationNeighbors>,
    handles: Seq<ElementHandle>,
    layout: NavigationLayout,
) -> Map<ElementHandle, NavigationNeighbors> {
    Map::new(
        |handle: ElementHandle| before.contains_key(handle) || handles.contains(handle),
        |handle: ElementHandle|
            if handles.contains(handle) {
                layout.neighbors_at(handles, last_position(handles, handle))
            } else {
                before[handle]
            },
    )
}

/// The state of the graph after a build over `handles`. The focus goes to the
/// first handle if that was asked for and there is one; otherwise it stays
/// where it was.
pub open spec fn state_after_build(
    before: NavigationState,
    handles: Seq<ElementHandle>,
    layout: NavigationLayout,
    set_initial_focus: bool,
) -> NavigationState {
    NavigationState {
        adjacency: adjacency_after_build(before.adjacency, handles, layout),
        focused: if set_initial_focus && handles.len() > 0 {
            Some(handles[0])
        } else {
            before.focused
        },
    }
}

/// What a build over `handles` tells the rendering layer: every handle is to
/// be marked focusable, in order, and after that the first one is to be marked
/// focused if the initial focus was asked for.
pub open spec fn marker_instructions(
    handles: Seq<ElementHandle>,
    set_initial_focus: bool,
) -> Seq<MarkerInstruction> {
    let focusable = Seq::new(
        handles.len(),
        |i: int| MarkerInstruction::MarkFocusable(handles[i]),
    );
    if set_initial_focus && handles.len() > 0 {
        focusable.push(MarkerInstruction::MarkFocused(handles[0]))
    } else {
        focusable
    }
}

/// A layout that was found usable when the builder was made.
struct CheckedLayout {
    shape: NavigationLayout,
}

impl CheckedLayout {
    #[verifier::type_invariant]
    spec fn usable(self) -> bool {
        self.shape.well_formed()
    }
}

/// Collects the buttons of one screen, in display order, and then writes their
/// neighbor sets into a navigation graph.
pub struct ButtonNavigationBuilder {
    buttons: Vec<ElementHandle>,
    layout: CheckedLayout,
}

impl View for ButtonNavigationBuilder {
    type V = Seq<ElementHandle>;

    /// The handles added so far, in the order in which they were added.
    closed spec fn view(&self) -> Seq<ElementHandle> {
        self.buttons@
    }
}

impl ButtonNavigationBuilder {
    /// The layout that the builder was made with.
    pub closed spec fn layout(self) -> NavigationLayout {
        self.layout.shape
    }

    /// A builder without buttons for the given layout. A grid without columns
    /// is refused, and nothing else is.
    pub fn new(layout: NavigationLayout) -> (made: Result<ButtonNavigationBuilder, LayoutError>)
        ensures
            made is Ok <==> layout.well_formed(),
            made matches Ok(builder) ==> builder@ == Seq::<ElementHandle>::empty()
                && builder.layout() == layout,
            made matches Err(error) ==> error == LayoutError::ZeroColumns,
    {
        if layout.is_valid() {
            Ok(
                ButtonNavigationBuilder {
                    buttons: Vec::new(),
                    layout: CheckedLayout { shape: layout },
                },
            )
        } else {
            Err(LayoutError::ZeroColumns)
        }
    }

    /// Adds a button after those added so far.
    pub fn add_button(&mut self, handle: ElementHandle)
        ensures
            final(self)@ == old(self)@.push(handle),
            final(self).layout() == old(self).layout(),
    {
        self.buttons.push(handle);
    }

    /// Registers every button in `nav_graph` with the neighbor set that the
    /// layout gives to its position, puts the focus on the first button if
    /// `set_initial_focus` is set, and returns what the rendering layer is to
    /// mark.
    ///
    /// Without buttons nothing happens at all: the graph and its focus stay as
    /// they were, and no instruction is returned.
    pub fn build(self, nav_graph: &mut NavigationGraph, set_initial_focus: bool) -> (instructions:
        Vec<MarkerInstruction>)
        ensures
            final(nav_graph)@ == state_after_build(
                old(nav_graph)@,
                self@,
                self.layout(),
                set_initial_focus,
            ),
            instructions@ == marker_instructions(self@, set_initial_focus),
            self@.len() == 0 ==> final(nav_graph)@ == old(nav_graph)@ && instructions@.len() == 0,
            self@.len() > 0 && set_initial_focus ==> final(nav_graph)@.focused == Some(self@[0]),
            !set_initial_focus ==> final(nav_graph)@.focused == old(nav_graph)@.focused,
    {
        proof {
            use_type_invariant(&self.layout);
        }
        let ghost before = nav_graph@;
        let layout = self.layout.shape;
        let count = self.buttons.len();
        let mut instructions: Vec<MarkerInstruction> = Vec::new();
        proof {
            lemma_prefix_start(before.adjacency, self.buttons@, layout);
            lemma_prefix_whole(before.adjacency, self.buttons@, layout);
        }
        if count == 0 {
            return instructions;
        }
        for i in 0..count
            invariant
                count == self.buttons.len(),
                instructions@ == Seq::new(
                    i as nat,
                    |j: int| MarkerInstruction::MarkFocusable(self.buttons@[j]),
                ),
        {
            instructions.push(MarkerInstruction::MarkFocusable(self.buttons[i]));
        }
        for i in 0..count
            invariant
                count == self.buttons.len(),
                layout.well_formed(),
                nav_graph@.focused == before.focused,
                nav_graph@.adjacency == adjacency_after_prefix(
                    before.adjacency,
                    self.buttons@,
                    layout,
                    i as int,
                ),
        {
            let neighbors = layout.compute_neighbors(&self.buttons, i);
            nav_graph.register_button(self.buttons[i], neighbors);
            proof {
                lemma_prefix_step(before.adjacency, self.buttons@, layout, i as int);
            }
        }
        if set_initial_focus {
            let first = self.buttons[0];
            instructions.push(MarkerInstruction::MarkFocused(first));
            nav_graph.set_focus(first);
        }
        instructions
    }
}

/// The neighbor sets once the first `done` handles of a build are registered.
spec fn adjacency_after_prefix(
    before: Map<ElementHandle, NavigationNeighbors>,
    handles: Seq<ElementHandle>,
    layout: NavigationLayout,
    done: int,
) -> Map<ElementHandle, NavigationNeighbors> {
    Map::new(
        |handle: ElementHandle| before.contains_key(handle) || handles.take(done).contains(handle),
        |handle: ElementHandle|
            if handles.take(done).contains(handle) {
                layout.neighbors_at(handles, last_position(handles.take(done), handle))
            } else {
                before[handle]
            },
    )
}

/// Before anything is registered, the graph holds what it held.
proof fn lemma_prefix_start(
    before: Map<ElementHandle, NavigationNeighbors>,
    handles: Seq<ElementHandle>,
    layout: NavigationLayout,
)
    ensures
        adjacency_after_prefix(before, handles, layout, 0) == before,
{
    assert(adjacency_after_prefix(before, handles, layout, 0) =~= before);
}

/// Registering the next handle takes the neighbor sets from one prefix to the
/// next.
proof fn lemma_prefix_step(
    before: Map<ElementHandle, NavigationNeighbors>,
    handles: Seq<ElementHandle>,
    layout: NavigationLayout,
    done: int,
)
    requires
        0 <= done < handles.len(),
    ensures
        adjacency_after_prefix(before, handles, layout, done + 1) == adjacency_after_prefix(
            before,
            handles,
            layout,
            done,
        ).insert(handles[done], layout.neighbors_at(handles, done)),
{
    let shorter = handles.take(done);
    let longer = handles.take(done + 1);
    assert(longer.drop_last() =~= shorter);
    assert forall|handle: ElementHandle|
        longer.contains(handle) <==> (shorter.contains(handle) || handle == handles[done]) by {
        if shorter.contains(handle) {
            let j = choose|j: int| 0 <= j < shorter.len() && shorter[j] == handle;
            assert(longer[j] == handle);
        }
        if handle == handles[done] {
            assert(longer[done] == handle);
        }
    }
    assert(adjacency_after_prefix(before, handles, layout, done + 1)
        =~= adjacency_after_prefix(before, handles, layout, done).insert(
        handles[done],
        layout.neighbors_at(handles, done),
    ));
}

/// Once every handle is registered, the build is complete.
proof fn lemma_prefix_whole(
    before: Map<ElementHandle, NavigationNeighbors>,
    handles: Seq<ElementHandle>,
    layout: NavigationLayout,
)
    ensures
        adjacency_after_prefix(before, handles, layout, handles.len() as int)
            == adjacency_after_build(before, handles, layout),
{
    assert(handles.take(handles.len() as int) =~= handles);
}

} // verus!
