//! Synchronization and event-orchestration core of an 8-bit console emulator.
//!
//! The library ties the independently clocked subsystems (processor, picture
//! unit, audio unit, cartridge mapper) into one deterministic stepping
//! protocol: it maintains the shared cycle clock, resolves the two competing
//! interrupt sources with strict priority, assembles per-frame actions, and
//! turns asynchronous UI input into deterministic per-frame button state plus
//! control commands. Subsystem internals (instruction decode, pixel rendering,
//! waveform synthesis, bank switching) are collaborator concerns and stay
//! outside; the host drives them and feeds their observable outputs back in.

pub mod codec;
pub mod emulator;
pub mod input;
pub mod interrupt;
pub mod mapper;
pub mod memmap;
pub mod timer;
