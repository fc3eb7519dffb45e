//! Core game logic of the Fracture survival game: the four dimensions of
//! reality, chunk dimension tracking, fractures, creatures, anchors,
//! cross-dimension networking codecs, Prime world generation and the block
//! placement preview.

pub mod dimension;
pub mod fractures;
pub mod network;
pub mod creatures;
pub mod world;
pub mod anchors;
pub mod stability;
pub mod phase_shift;
pub mod render;
pub mod hud;
pub mod weak_points;
pub mod placement;
