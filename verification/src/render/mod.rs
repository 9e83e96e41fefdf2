//! Names and shapes that every emitter derives from a declaration in the same
//! way.
pub mod message;
pub mod protocol;
