//! A simulation of autonomous vehicles that cross a four-way intersection
//! without traffic lights, each choosing its speed by a local rule.

pub mod algorithm;
mod chance;
mod filtering;
pub mod geometry;
pub mod intersection;
pub mod physics;
pub mod route;
pub mod scene;
pub mod session;
pub mod spawning;
pub mod statistics;
pub mod vehicle;
