//! Custodial escrow and single-winner tournament service.
//!
//! An organizer registers a prize pool and vault, appends a roster of
//! contestant addresses, triggers a pseudorandom draw that names one
//! contestant as winner while escrowing the stake into the vault, and lets
//! the named winner withdraw the escrowed prize exactly once.

pub mod draw;
pub mod errors;
pub mod laws;
pub mod service;
pub mod state;
pub mod token;
