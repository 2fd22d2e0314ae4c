//! The lifecycle of a renderer that clears a canvas-bound surface once per
//! frame, kept free of GPU calls: the host performs them and reports back.

pub mod backend;
pub mod bridge;
pub mod config;
pub mod error;
pub mod frame;
pub mod negotiate;
pub mod renderer;
pub mod world;
