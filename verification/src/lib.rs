//! Core of a viewer for SVG drawings: the pan and zoom state of the canvas,
//! the steps that turn a parsed drawing into a bitmap, and the decisions
//! behind the window's title bar. Parsing and painting themselves are the
//! caller's to do, between those steps. Lengths and factors are fixed-point
//! numbers counted in millionths; nothing in this crate computes with
//! floating point.

pub mod chrome;
pub mod fixed;
pub mod raster;
pub mod single;
pub mod svg;
pub mod viewer;
pub mod viewport;
