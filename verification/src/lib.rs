//! The decisions behind RoomMute, a tray application that cleans a microphone
//! and hands the result to other programs through a virtual audio cable.
//!
//! Everything here is a function from plain values to plain values, or a small
//! state machine over them; the one thing that is more is the rings that carry
//! frames between threads. Windows, the sound card, the clock and the file
//! system stay outside; what they report comes in as arguments and what should
//! be done about it goes out as a result.

pub mod autostart;
pub mod cli;
pub mod config;
pub mod device_laws;
pub mod devices;
pub mod error;
pub mod firstrun;
pub mod icon;
pub mod logfile;
pub mod menu;
pub mod pipeline;
pub mod pipeline_laws;
pub mod resources;
pub mod ring;
pub mod startup;
pub mod startup_laws;
pub mod text;
pub mod text_laws;
pub mod tray;
pub mod tray_laws;
pub mod view_laws;
pub mod watchdog;
