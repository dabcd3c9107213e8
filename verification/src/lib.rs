//! Debugger queries over a Director player's state.
pub mod model;
pub mod response;
pub mod datum_map;
pub mod text;
pub mod lookup;
pub mod sort;
pub mod messages;
pub mod filmloop;
pub mod datum;
pub mod scripts;
pub mod player;
pub mod casts;
pub mod picture;
pub mod laws;
pub mod checks;
pub mod query_laws;
