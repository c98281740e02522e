//! Identity verification and key-ceremony orchestration for an electronic
//! voting platform: one-time passcodes, session tokens, the signing-threshold
//! policy and the per-poll Setup/KeyGen state machine.

pub mod ceremony;
pub mod ceremony_laws;
pub mod client;
mod clock;
pub mod decimal;
pub mod digest;
pub mod engine;
pub mod enrollment;
pub mod failure;
pub mod order;
pub mod otp;
pub mod otp_laws;
pub mod poll;
pub mod principal;
pub mod threshold;
pub mod token;
