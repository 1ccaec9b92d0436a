//! Snowcloud: compact, sortable 63-bit identifiers ("flakes") built from a
//! millisecond timestamp, caller-assigned partition segments, and a
//! per-millisecond sequence counter.
//!
//! The crate provides the identifier codecs (bit-field packing and
//! unpacking), the tick/sequence state machine that keeps ids unique and
//! ordered within a generator, an exclusive-owner generator and a
//! lock-guarded shared generator, and a bounded-retry blocking wait helper.

mod clock;
pub mod cloud;
pub mod codec;
pub mod dur;
pub mod error;
pub mod flake;
pub mod pg;
pub mod traits;
pub mod wait;

pub use cloud::multi::MultiThread;
pub use cloud::single::SingleThread;
pub use cloud::sync::MutexGenerator;
pub use cloud::Generator;
pub use dur::Dur;
pub use error::Error;
pub use flake::Snowflake;
