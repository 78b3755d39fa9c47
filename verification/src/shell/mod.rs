//! Shell integration.
pub mod devbox;
