//! Core of an interactive terminal visualizer for layered networks: a
//! pan/zoom view state over exact rational coordinates, a layered-graph
//! layout, a drag-painted pixel grid, a shared progress log for a background
//! worker, and the input-to-command dispatch of the render loop.
//!
//! All coordinates are exact rationals (`rat::Rat`), so every geometric
//! contract is stated and proved without floating point; the terminal
//! renderer converts to its own number type at the edge.

pub mod rat;
pub mod view;
pub mod canvas;
pub mod history;
pub mod topology;
pub mod input;
pub mod scheduler;
pub mod frame;
