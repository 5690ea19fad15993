//! Game logic of a block world: block kinds, the hotbar inventory, greedy
//! face meshing of chunks, entity spawning and behaviour decisions, block
//! targeting and placement, and small audio and particle rules.
pub mod block;
pub mod mesh;
pub mod inventory;
pub mod random;
pub mod entity;
pub mod player;
pub mod audio;
pub mod particle;
pub mod ai;
pub mod hud;
pub mod atlas;
pub mod lighting;
pub mod session;
