//! Rewrites the length-prefixed weather field near the start of a replay
//! file, passing the header padding and the trailing frame payload through
//! unchanged.
pub mod layout;
pub mod laws;
pub mod patch;
pub mod stream;
