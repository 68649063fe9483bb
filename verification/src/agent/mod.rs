pub mod handle;
pub mod laws;
pub mod options;
pub mod queue;
pub mod state;
pub mod state_laws;
