//! A verified procedural-terrain library: a pure evaluator for a directed
//! acyclic graph of noise modules over fixed-point scalars, together with the
//! small plain-data types of the surrounding game prototypes.

pub mod camera;
pub mod components;
pub mod fixed;
pub mod generator;
pub mod graph;
pub mod logger;
pub mod node;
pub mod noise;
pub mod params;
pub mod state;
pub mod terrain;
pub mod window;
pub mod world;
