//! Core of a wallpaper daemon: the rotation configuration that commands write
//! and the scheduler reads, the scheduler's decisions, the image filter, and
//! the replies of the command service.
pub mod fill_mode;
pub mod generation;
pub mod scheduler;
pub mod service;
pub mod shared;
pub mod state;
pub mod text;
pub mod validate;

pub use fill_mode::FillMode;
