pub mod text;
pub mod strings;
pub mod time;
pub mod source;
pub mod song;
pub mod events;
pub mod queue;
pub mod keybinding;
pub mod model_keybinding;
pub mod sync;
pub mod naming;
pub mod ui;
pub mod library;
pub mod terminal;
pub mod player;
pub mod application;
pub mod ffi;
pub mod download;
pub mod source_api;
pub mod mpris;
