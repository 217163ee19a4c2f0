//! Verified core of the StreamDock K1 Pro plugin for OpenDeck: key and
//! input-code mappings, report decoding, connection-mode decisions, backlight
//! controls and key-image preparation.
pub mod mappings;
pub mod text;
pub mod protocol;
pub mod commands;
pub mod mode;
pub mod backlight;
pub mod key_image;
pub mod discovery;
