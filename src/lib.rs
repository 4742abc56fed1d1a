//! Firmware logic of a MIDI control surface for a pedalboard.
//!
//! The core is the SysEx configuration protocol engine: incoming SysEx
//! requests are parsed ([`parser`]), served against an in-memory
//! configuration model of presets, buttons and encoders ([`model`],
//! [`config`]) and answered with rendered SysEx responses ([`renderer`]),
//! all over one byte layout ([`wire`], [`codec`]).
//!
//! Around it: the MIDI messages sent to the external gear ([`devices`]), the
//! modes that map human input to those messages and to LED feedback
//! ([`handler`]), and the LEDs and controls themselves ([`hmi`],
//! [`loudness`]).

pub mod codec;
pub mod protocol;
pub mod wire;
pub mod parser;
pub mod renderer;
pub mod model;
pub mod config;
pub mod devices;
pub mod hmi;
pub mod loudness;
pub mod handler;
