//! Pointer grabs that move or resize a window.
pub mod move_grab;
pub mod resize_grab;

pub use move_grab::MoveSurfaceGrab;
pub use resize_grab::ResizeSurfaceGrab;
