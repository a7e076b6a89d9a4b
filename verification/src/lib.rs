//! Core library for a virtual-microphone audio pipeline.
//!
//! The heart of the crate is [`transport`]: a single-producer,
//! single-consumer ring buffer of audio frames laid out behind a fixed,
//! validated header, as it lives in a shared-memory region between the
//! capture application and the virtual-device driver. The surrounding
//! modules hold the application's plain data model: settings, device and
//! model descriptions, and the events emitted to the user interface.

pub mod convert;
pub mod devices;
pub mod events;
pub mod models;
pub mod recording;
pub mod settings;
pub mod transport;

mod text;

pub use transport::Header;
pub use transport::SharedMemory;
pub use transport::shared_memory_size;
