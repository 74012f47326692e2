//! A client for a real-time chat gateway: the connection handshake and
//! liveness bookkeeping, routing of gateway events to registered handlers, and
//! registration and routing of application commands.

pub mod decimal;
pub mod disc_objects;
pub mod discord;
pub mod interactions;
pub mod bot;
