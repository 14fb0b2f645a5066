//! Off-screen compositing and native-bridge protocol for a desktop media shell.
//!
//! The library holds the logic: the protocol codec, the player property model,
//! the compositor's upload and resize rules, the GPU context slot, and the
//! decisions of the browser and player bridges. Native engines, GL calls and
//! the host loop stay with the program that embeds it.

pub mod broker;
pub mod browser;
pub mod compositor;
pub mod config;
pub mod decimal;
pub mod gpu;
pub mod json;
pub mod keys;
pub mod player;
pub mod property;
pub mod presence;
pub mod protocol;
pub mod types;
