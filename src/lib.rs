//! Main-menu flow of a small 2D game: the application states from asset
//! preloading to the main menu, the menu's buttons, their colours and what a
//! click on each of them asks for.
use vstd::prelude::*;

pub mod config;
pub mod flow;
pub mod menu;
pub mod state;

verus! {

} // verus!
