//! Verified core of a frame-grounded computer-use service for Linux desktops.
pub mod backend;
pub mod background_laws;
pub mod chord;
pub mod command;
pub mod daemon;
pub mod desktop;
pub mod engine;
pub mod engine_laws;
pub mod engine_runs;
pub mod frame;
pub mod input;
pub mod input_laws;
pub mod instance;
pub mod intervals;
pub mod key_laws;
pub mod key_names;
pub mod keymap;
pub mod keymap_laws;
pub mod keys;
pub mod namespace_laws;
pub mod niri;
pub mod path;
pub mod pointer;
pub mod pointer_laws;
pub mod protocol;
pub mod replies;
pub mod session;
pub mod session_laws;
pub mod signal;
pub mod store;
pub mod store_laws;
pub mod text;
pub mod text_laws;
pub mod tools;
pub mod validate;
pub mod validate_laws;
pub mod wait;
pub mod wait_laws;
pub mod waits;
pub mod watch;
pub mod x11;
pub mod x11_keyboard;
pub mod x11_laws;
pub mod x11_session;
