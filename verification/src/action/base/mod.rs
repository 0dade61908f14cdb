//! Actions that work on any platform.

pub mod move_directory;

pub use move_directory::MoveDirectory;
