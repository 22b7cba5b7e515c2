//! Phase synchronisation over an authenticated broadcast channel.
//!
//! Each node runs a 16-bit circular oscillator and nudges it toward the phases
//! that peers broadcast; samples travel encoded and sealed with AES-256-CCM.
pub mod codec;
pub mod framer;
pub mod led;
pub mod mailbox;
pub mod net;
pub mod phase;
pub mod rainbow;
