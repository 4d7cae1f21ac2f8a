//! View-state and rendering-decision core of an interactive function plotter:
//! display modes and their cycle, datasets, grid slicing, wireframe
//! neighbours, the view cube's labelled edges, the color sector table, and
//! the key-driven view state with its cached texture.

pub mod color;
pub mod cube;
pub mod grid;
pub mod input;
pub mod mode;
pub mod plan;
pub mod sample;
pub mod state;
pub mod surface;
