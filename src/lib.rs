//! Symbol-class state machine of an LZMA-style coder, and a byte-counting
//! writer that tracks how much output has been produced.
pub mod counting;
pub mod state;

pub use counting::CountingWriter;
pub use state::State;
pub use state::STATES;
