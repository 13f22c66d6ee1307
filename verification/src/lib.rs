//! Client-facing front end of a transparent TCP proxy.
//!
//! An accepted connection enters as a [`client::NewClient`]: its true
//! destination is recovered from the kernel's redirection record, the first
//! bytes are optionally sniffed for a TLS Client Hello, and the connection is
//! then handed to a racing connector and finally bridged, with the chosen
//! server's connection counters kept balanced throughout.

pub mod client;
pub mod dest;
pub mod server;
pub mod shared;
