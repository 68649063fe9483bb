pub mod completeness;
pub mod history;
pub mod laws;
pub mod model_laws;
pub mod nesting;
pub mod prompting;
pub mod protocol;
pub mod run_laws;
pub mod state;
pub mod step;
pub mod stream_response;
pub mod terminal;
pub mod tool_calls;
pub mod tool_laws;
pub mod turn;
pub mod turn_laws;
