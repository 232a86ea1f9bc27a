//! Live section-marker synchronization: one authoritative `SectionState`
//! value, serialized control mutations, and a coalescing subscription
//! protocol that fans every change out to any number of observers.

pub mod errors;
pub mod projection;
pub mod render;
pub mod session;
pub mod state;
