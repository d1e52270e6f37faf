//! Register codec and band-limited stereo resampling for an FM sound chip.
//!
//! The crate translates a musician-facing tone/note model into the chip's raw
//! register protocol, and converts the chip's native-clock sample stream into
//! an arbitrary output sample rate without aliasing. The waveform synthesis
//! itself is the job of an external chip engine, reached through the
//! [`engine::ChipEngine`] interface.

pub mod blip;
pub mod buffer;
pub mod engine;
pub mod note;
pub mod session;
pub mod tone;

pub use engine::Bank;
pub use engine::ChipEngine;
pub use engine::FakeEngine;
pub use engine::RegWrite;
pub use note::Note;
pub use session::SynthSession;
pub use tone::FmOperator;
pub use tone::FmTone;
