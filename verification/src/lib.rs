//! Decision logic of Robert Neville, a survival robot that explores a tile
//! world with his dog Sam, drinks, eats and hides from zombies.

pub mod position_set;
pub mod types;
pub mod grid;
pub mod exploration;
pub mod random;
pub mod planner;
pub mod rocket_data;
pub mod tick;
pub mod text;
pub mod laws;
