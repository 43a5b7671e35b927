//! A sink that stores each block as an object and announces it on a queue.
pub mod combined_client;
pub mod config;
