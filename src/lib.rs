//! Control layer over Magewell capture channels of the Eco and Pro families.
//!
//! The native capture SDK does the hardware work; this library makes every decision
//! around it and states each one as a contract: which outcome of a native call is a
//! failure, the one-buffer-at-a-time ownership protocol of Eco video frames, the audio
//! polling protocol, the subscriptions of a channel's completion source, and the
//! normalisation of channel identities. Each operation takes what the native call
//! returned as a plain value.

pub mod capture;
pub mod eco_channel;
pub mod error;
pub mod fourcc;
pub mod frames;
pub mod info;
pub mod notify;
pub mod pro_channel;
pub mod registry;
pub mod signal;
pub mod time;
