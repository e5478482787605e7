pub mod map;
pub mod player;
pub mod tile;
