//! Link protocol engine for a battery-powered smart light: a resumable frame
//! decoder for the notification byte stream, the payload decoder for device
//! information, the outbound command encoder, and the per-device freshness
//! cache that keeps at most one state query in flight.

pub mod cache;
pub mod command;
pub mod decoder;
pub mod light;
