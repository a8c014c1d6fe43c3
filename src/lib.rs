pub mod attack;
pub mod combo;
pub mod laws;
pub mod player;
pub mod state;
