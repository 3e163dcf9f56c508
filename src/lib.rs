//! Pocket-Tray: a clipboard-to-speech utility.
//!
//! The library holds the decision logic of the utility: the speech dispatch
//! engine's state machine, the clipboard watcher's filtering policy, the menu
//! command surface, the persisted settings record and the tray icon's
//! animation cycle. Audio output, the synthesis model, the clipboard, the tray
//! and the window loop are driven by the application around it.

pub mod tts;
pub mod clipboard;
pub mod menu_ids;
pub mod tray;
pub mod settings;
pub mod icon;
pub mod coordinator;
pub mod voices;
