//! The logic of a vertical status bar for the Hyprland compositor: the clock
//! text, the lookup of an application's icon through its desktop entry, and
//! the bookkeeping behind the dock of client buttons.

mod text;
pub mod clock;
mod pattern;
pub mod paths;
pub mod lookup;
pub mod dock;
pub mod registry;
