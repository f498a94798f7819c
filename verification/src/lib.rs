//! Directional focus navigation for menu-style user interfaces.
//!
//! A [`navigation::NavigationGraph`] records, for every interactive element,
//! which element is reached by moving up, down, left or right, and which single
//! element currently holds the focus. A
//! [`button_builder::ButtonNavigationBuilder`] fills the graph for one screen
//! from the screen's buttons in display order and a
//! [`layout::NavigationLayout`]: a vertical list, a horizontal list, or a grid.
//!
//! Elements are known by [`handle::ElementHandle`] only. The rendering layer
//! owns them, turns its own identities into handles on the way in, and carries
//! out the [`button_builder::MarkerInstruction`]s that a build returns.
//!
//! [`build_lemmas`] states what every build guarantees.

pub mod build_lemmas;
pub mod button_builder;
pub mod handle;
pub mod layout;
pub mod navigation;
