//! Decision logic of a controller for Corsair Void wireless headsets: the HID status protocol,
//! the polling and command-line state machines, the IPC wire format, the tray's state, menu and
//! icon, the configuration rules and the audio bookkeeping.
//!
//! Everything here works on plain values. Reading devices, sockets and files, drawing the tray
//! and playing sound is left to the program around the library.

pub mod audio;
pub mod autostart;
pub mod cli;
pub mod config;
pub mod device;
pub mod ipc;
pub mod sound;
pub mod text;
pub mod tray;
