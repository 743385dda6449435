//! The futures market's streams.

pub mod decode;
pub mod endpoint;
pub mod laws;
pub mod shapes;
pub mod websockets;
