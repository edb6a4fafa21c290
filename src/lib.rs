//! Terminal globe viewer: a fixed-point software rasterizer that paints a
//! triangulated sphere onto a rectangle of character cells, with the small
//! pieces of interface state around it.

pub mod depth;
pub mod geometry;
pub mod panel;
pub mod mesh;
pub mod frame;
pub mod camera;
pub mod log;
pub mod stack;
pub mod menu;
pub mod stormfront;
