//! Control-plane building blocks for USB3 Vision cameras: the GenCP
//! acknowledge codec, a byte-addressable register memory with per-byte
//! access rights, a FIFO model of asynchronous bulk transfers, the
//! device/channel layer, and the GenTL device module that binds them.

pub mod ack;
pub mod async_pool;
pub mod device;
pub mod gentl;
pub mod memory;
