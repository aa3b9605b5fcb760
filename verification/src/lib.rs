//! The embeddable core of a client-side telemetry SDK.
//!
//! Host applications record structured events; the core reshapes and
//! enriches each one, validates it against a fixed schema, and hands it
//! to the single active consumer: a buffered rotating file writer, a
//! memory-mapped rotating append log, or a batched asynchronous
//! uploader. Everything that touches the outside world - files, maps,
//! threads, the network - is decided here but performed by the thin
//! unverified shell around the library, which receives those decisions
//! as explicit effect values.

pub mod clock;
pub mod codec;
pub mod error;
pub mod log_consumer;
pub mod message_queue;
pub mod mmap_consumer;
pub mod process;
pub mod queue;
pub mod registry;
pub mod schema;
pub mod text;
pub mod token;
pub mod tracer;
pub mod upload_consumer;
pub mod value;
pub mod verify;
