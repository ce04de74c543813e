pub mod chunk;
pub mod protocol;
pub mod transport;
