//! krachlicht drives a DMX light fixture from live or recorded audio.
//!
//! The crate holds the real-time rendering core: the frame scheduler, the
//! spectral-intensity extraction, the lighting-effect state machines, and the
//! orchestrator that turns a color frame into device channel values.  All
//! intensities, alphas and color components are decimal fixed-point fractions
//! (see [`fixed`]), so every rule of the pipeline is stated and checked
//! exactly.  Audio capture, sockets and protocol transports live outside the
//! library and hand plain values in and out.

pub mod color;
pub mod config;
pub mod effects;
pub mod fixed;
pub mod intervaltimer;
pub mod lightbar;
pub mod mqtt;
pub mod olaoutput;
pub mod osc;
pub mod photonizer;
pub mod pixelflow;
pub mod playbackstate;
pub mod staticcolor;
pub mod thunderstruck;
