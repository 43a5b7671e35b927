//! A sink that prints one line for each event.
pub mod format;
