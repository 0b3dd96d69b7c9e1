//! Notification dispatch engine: renders security events into channel-ready
//! text, routes them to destination buckets by severity, and plans reliable
//! delivery over mail and chat transports with bounded retry.

pub mod clock;
pub mod config;
pub mod dispatch;
pub mod event;
pub mod mail;
pub mod matrix;
pub mod render;
pub mod retry;
pub mod router;
pub mod scan;
pub mod severity;
pub mod text;
