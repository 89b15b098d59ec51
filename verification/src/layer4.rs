//! Application layer codecs.

pub mod http;
pub mod ntp;
