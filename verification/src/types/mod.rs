pub mod config;
pub mod content;
pub mod error;
pub mod event;
pub mod laws;
pub mod message;
pub mod model;
pub mod stream;
pub mod tool;
