//! Movement and time coupling for a grid puzzle: walking along the active
//! axis advances or rewinds a clock, and orbs rewrite the coupling rule.
pub mod game_state;
pub mod grid;
pub mod orbs;
pub mod player;
pub mod session;
pub mod walls;
