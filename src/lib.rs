//! Layered decoding of captured link-layer frames (Ethernet, IPv4/IPv6,
//! TCP/UDP) and rendering of each decoded packet as a text block.

pub mod headers;
pub mod text;
pub mod endpoints;
pub mod render;
pub mod dispatch;
pub mod lemmas;
pub use endpoints::GetEndPoints;
