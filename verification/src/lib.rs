//! A generative ambient audio engine, verified with Verus.
//!
//! The engine renders interleaved stereo audio deterministically from a
//! sample rate, a seed for its random source, and a sequence of calls.
//! All signal processing is carried out in Q16 fixed-point arithmetic
//! (65536 represents 1.0), so every sample path is exact integer
//! mathematics with contracts, and rendering is reproducible bit for bit.

pub mod fixed;
pub mod sine;
pub mod exp;
pub mod rng;
pub mod delay;
pub mod filter;
pub mod reverb;
pub mod osc;
pub mod sequencer;
pub mod engine;
