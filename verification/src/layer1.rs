//! Link layer codecs.

pub mod arp;
pub mod ethernet;
