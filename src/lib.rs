//! Finds the devices of a tailnet whose keys have expired or expire soon,
//! and words the one push notification that summarises them.

pub mod timestamp;
pub mod date_format;
pub mod device;
pub mod classify;
pub mod message;
pub mod api;
pub mod config;
pub mod notice;
