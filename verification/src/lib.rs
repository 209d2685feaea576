//! Advertisement pipeline for a family of Bluetooth Low-Energy thermometers:
//! filtering of bus notifications, payload decoding, device identity and
//! metric naming.

pub mod adapter1;
pub mod device1;
pub mod event;
pub mod identity;
pub mod models;
pub mod notification;
pub mod pipeline;
pub mod statsd_output;
pub mod string_map;
pub mod text;
