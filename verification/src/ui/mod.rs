//! What the tool shows and asks, as far as it is decided and not drawn.
pub mod output;
pub mod prompts;
