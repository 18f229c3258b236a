//! Helpers shared by the player's views.
pub mod helper_functions;
