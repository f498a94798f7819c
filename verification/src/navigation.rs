//! The navigation graph: who is next to whom, and who holds the focus.

use crate::handle::ElementHandle;
use std::collections::HashMap;
use vstd::prelude::*;

verus! {

/// One of the four ways the focus can move.
#[derive(Clone, Copy, Debug, PartialEq, Eq, Structural)]
pub enum Direction {
    Up,
    Down,
    Left,
    Right,
}

impl Direction {
    /// The direction that leads back.
    pub open spec fn opposite(self) -> Direction {
        match self {
            Direction::Up => Direction::Down,
            Direction::Down => Direction::Up,
            Direction::Left => Direction::Right,
            Direction::Right => Direction::Left,
        }
    }
}

/// The elements next to one element, one per direction. `None` means that
/// nothing lies in that direction.
#[derive(Clone, Copy, Debug, PartialEq, Eq, Structural)]
pub struct NavigationNeighbors {
    pub up: Option<ElementHandle>,
    pub down: Option<ElementHandle>,
    pub left: Option<ElementHandle>,
    pub right: Option<ElementHandle>,
}

impl NavigationNeighbors {
    /// The neighbor set of an element with nothing around it.
    pub open spec fn isolated() -> NavigationNeighbors {
        NavigationNeighbors { up: None, down: None, left: None, right: None }
    }

    /// The neighbor that lies in `direction`, if any.
    pub open spec fn toward(self, direction: Direction) -> Option<ElementHandle> {
        match direction {
            Direction::Up => self.up,
            Direction::Down => self.down,
            Direction::Left => self.left,
            Direction::Right => self.right,
        }
    }

    /// A neighbor set with no neighbor in any direction.
    pub fn new() -> (neighbors: NavigationNeighbors)
        ensures
            neighbors == NavigationNeighbors::isolated(),
    {
        NavigationNeighbors { up: None, down: None, left: None, right: None }
    }

    /// The same neighbors, but with `up` above.
    pub fn with_up(self, up: Option<ElementHandle>) -> (neighbors: NavigationNeighbors)
        ensures
            neighbors == (NavigationNeighbors { up, ..self }),
    {
        NavigationNeighbors { up, down: self.down, left: self.left, right: self.right }
    }

    /// The same neighbors, but with `down` below.
    pub fn with_down(self, down: Option<ElementHandle>) -> (neighbors: NavigationNeighbors)
        ensures
            neighbors == (NavigationNeighbors { down, ..self }),
    {
        NavigationNeighbors { up: self.up, down, left: self.left, right: self.right }
    }

    /// The same neighbors, but with `left` to the left.
    pub fn with_left(self, left: Option<ElementHandle>) -> (neighbors: NavigationNeighbors)
        ensures
            neighbors == (NavigationNeighbors { left, ..self }),
    {
        NavigationNeighbors { up: self.up, down: self.down, left, right: self.right }
    }

    /// The same neighbors, but with `right` to the right.
    pub fn with_right(self, right: Option<ElementHandle>) -> (neighbors: NavigationNeighbors)
        ensures
            neighbors == (NavigationNeighbors { right, ..self }),
    {
        NavigationNeighbors { up: self.up, down: self.down, left: self.left, right }
    }

    /// The neighbor that lies in `direction`, if any.
    pub fn neighbor(&self, direction: Direction) -> (found: Option<ElementHandle>)
        ensures
            found == self.toward(direction),
    {
        match direction {
            Direction::Up => self.up,
            Direction::Down => self.down,
            Direction::Left => self.left,
            Direction::Right => self.right,
        }
    }
}

impl Default for NavigationNeighbors {
    fn default() -> (neighbors: NavigationNeighbors)
        ensures
            neighbors == NavigationNeighbors::isolated(),
    {
        NavigationNeighbors::new()
    }
}

/// What a navigation graph holds, as a mathematical value: the neighbor set of
/// every registered element, and the element that holds the focus, if any.
///
/// Since `focused` is a single optional handle, at most one element is focused
/// at any time.
#[verifier::ext_equal]
pub struct NavigationState {
    pub adjacency: Map<ElementHandle, NavigationNeighbors>,
    pub focused: Option<ElementHandle>,
}

impl NavigationState {
    /// No element registered, nothing focused.
    pub open spec fn empty() -> NavigationState {
        NavigationState { adjacency: Map::empty(), focused: None }
    }

    /// The neighbor set registered for `handle`, or `None` if `handle` was never
    /// registered.
    pub open spec fn lookup(self, handle: ElementHandle) -> Option<NavigationNeighbors> {
        if self.adjacency.contains_key(handle) {
            Some(self.adjacency[handle])
        } else {
            None
        }
    }

    /// The state after `neighbors` is recorded for `handle`, replacing whatever
    /// was recorded for it before. The focus is not touched.
    pub open spec fn with_entry(
        self,
        handle: ElementHandle,
        neighbors: NavigationNeighbors,
    ) -> NavigationState {
        NavigationState { adjacency: self.adjacency.insert(handle, neighbors), ..self }
    }

    /// The state after the focus is put on `handle`. The neighbor sets are not
    /// touched.
    pub open spec fn with_focus(self, handle: ElementHandle) -> NavigationState {
        NavigationState { focused: Some(handle), ..self }
    }

    /// The element that a move in `direction` reaches: the neighbor in that
    /// direction of the focused element. `None` if nothing is focused, if the
    /// focused element is not registered, or if it has no neighbor there.
    pub open spec fn target(self, direction: Direction) -> Option<ElementHandle> {
        match self.focused {
            Some(current) => match self.lookup(current) {
                Some(neighbors) => neighbors.toward(direction),
                None => None,
            },
            None => None,
        }
    }

    /// The state after a move in `direction`: the focus goes to the target if
    /// there is one, and nothing changes otherwise.
    pub open spec fn after_move(self, direction: Direction) -> NavigationState {
        match self.target(direction) {
            Some(reached) => self.with_focus(reached),
            None => self,
        }
    }
}

/// The neighbor sets of the elements on screen, and the one element that is
/// focused.
pub struct NavigationGraph {
    table: HashMap<u64, NavigationNeighbors>,
    focused: Option<ElementHandle>,
}

impl View for NavigationGraph {
    type V = NavigationState;

    closed spec fn view(&self) -> NavigationState {
        NavigationState {
            adjacency: Map::new(
                |handle: ElementHandle| self.table@.contains_key(handle.0),
                |handle: ElementHandle| self.table@[handle.0],
            ),
            focused: self.focused,
        }
    }
}

impl NavigationGraph {
    /// A graph with no element registered and nothing focused.
    pub fn new() -> (graph: NavigationGraph)
        ensures
            graph@ == NavigationState::empty(),
    {
        NavigationGraph { table: HashMap::new(), focused: None }
    }

    /// Forgets every neighbor set and drops the focus.
    pub fn clear(&mut self)
        ensures
            final(self)@ == NavigationState::empty(),
            final(self)@.focused is None,
            forall|handle: ElementHandle| final(self)@.lookup(handle) is None,
    {
        self.table.clear();
        self.focused = None;
    }

    /// Records `neighbors` for `handle`, replacing what was recorded for it
    /// before.
    pub fn register_button(&mut self, handle: ElementHandle, neighbors: NavigationNeighbors)
        ensures
            final(self)@ == old(self)@.with_entry(handle, neighbors),
    {
        self.table.insert(handle.0, neighbors);
    }

    /// Puts the focus on `handle`, whether or not `handle` is registered.
    pub fn set_focus(&mut self, handle: ElementHandle)
        ensures
            final(self)@ == old(self)@.with_focus(handle),
    {
        self.focused = Some(handle);
    }

    /// The element that holds the focus, if any.
    pub fn focused(&self) -> (current: Option<ElementHandle>)
        ensures
            current == self@.focused,
    {
        self.focused
    }

    /// The neighbor set registered for `handle`, or `None` if `handle` was never
    /// registered.
    pub fn neighbors_of(&self, handle: ElementHandle) -> (found: Option<NavigationNeighbors>)
        ensures
            found == self@.lookup(handle),
    {
        match self.table.get(&handle.0) {
            Some(neighbors) => Some(*neighbors),
            None => None,
        }
    }

    /// Moves the focus one step in `direction` and returns the element reached.
    ///
    /// Where the focused element has no neighbor in that direction (or nothing
    /// is focused, or the focused element is not registered), nothing changes
    /// and `None` is returned: the focus does not wrap around.
    pub fn move_focus(&mut self, direction: Direction) -> (reached: Option<ElementHandle>)
        ensures
            reached == old(self)@.target(direction),
            final(self)@ == old(self)@.after_move(direction),
            reached is None ==> final(self)@ == old(self)@,
            reached is Some ==> final(self)@.focused == reached
                && final(self)@.adjacency == old(self)@.adjacency,
    {
        let reached = match self.focused {
            Some(current) => match self.table.get(&current.0) {
                Some(neighbors) => neighbors.neighbor(direction),
                None => None,
            },
            None => None,
        };
        if let Some(next) = reached {
            self.focused = Some(next);
        }
        reached
    }
}

impl Default for NavigationGraph {
    fn default() -> (graph: NavigationGraph)
        ensures
            graph@ == NavigationState::empty(),
    {
        NavigationGraph::new()
    }
}

} // verus!
