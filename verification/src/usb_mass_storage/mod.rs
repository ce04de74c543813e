pub mod block_device;
pub mod driver;
