//! Conway's Game of Life on a pair of GPU state textures: the grid rules,
//! the memory layouts and the frame protocol that a renderer has to follow,
//! each with a machine-checked contract.

pub mod bindings;
pub mod bytes;
pub mod display;
pub mod frame;
pub mod grid;
pub mod host;
pub mod layout;
pub mod renderer;
pub mod rule;
pub mod seed;
pub mod startup;
pub mod store;
pub mod surface;
pub mod texture;
pub mod upload;
