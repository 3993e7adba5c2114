pub mod client;
pub mod framing;
pub mod transport;
