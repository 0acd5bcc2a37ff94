//! Verified logic of a Wayland compositor.
pub mod delay;
pub mod elements;
pub mod fraction;
pub mod geometry;
pub mod grabs;
pub mod layouts;
pub mod logger;
pub mod motion_laws;
pub mod moving;
pub mod moving_laws;
pub mod pending;
pub mod release;
pub mod render;
pub mod seats;
pub mod session_lock;
pub mod snap;
pub mod snap_laws;
pub mod snap_strip;
pub mod windows;
pub mod workspaces;
pub mod zones;
