//! Turns CI webhook events into chat notifications: decides whether an event
//! is forwarded, renders its text and topic, and picks the destination stream.
pub mod text;
pub mod event;
pub mod repo;
pub mod job;
pub mod route;
pub mod render;
pub mod laws;
pub mod fixtures;
