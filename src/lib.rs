//! Marshalling of voice-assistant protocol messages between their native form
//! and a fixed-layout foreign form that owns all of its variable-length content.
pub mod error;
pub mod primitives;
pub mod native;
pub mod messages;
pub mod nlu;
pub mod session;
