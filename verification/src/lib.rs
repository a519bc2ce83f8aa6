//! Remote-mode hook decision engine.
//!
//! An agent host invokes this library once per lifecycle event (prompt
//! submission, stop request, idle notification).  The library consults a
//! snapshot of the persisted remote-mode state and returns an approve or
//! block-with-reason decision, together with the side effects the host
//! should perform (a session registration, an outbound notification).
//! All decision logic is verified; reading and writing the persisted
//! state, and performing the side effects, is left to the binary around
//! the library.

pub mod config;
pub mod gate;
pub mod hook;
pub mod sanitize;
pub mod server;
pub mod text;
pub mod transcript;
