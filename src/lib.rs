//! Decision logic of a single-triangle renderer: what depends on the surface
//! size, which queue family to use, what each frame records, and how the
//! redraw loop reacts to window events and to what the GPU reports.
pub mod surface;
pub mod commands;
pub mod device;
pub mod frame_loop;
