//! What the parts of the screen decide, apart from drawing.

pub mod game_menu;
pub mod game_screen;
pub mod gamecard;
