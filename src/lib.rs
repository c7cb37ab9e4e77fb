//! Periodic save-keystroke utility: the decisions it makes, verified.
//!
//! The operating-system surface (foreground window, synthetic input, global
//! hotkey, tray icon, settings file) is driven by the application around this
//! library; everything it decides with the values it gets back lives here.
pub mod config;
pub mod coordinator;
pub mod hotkey;
pub mod keyboard;
pub mod pause;
pub mod window;

pub use config::{Config, ConfigError, LoadPlan};
pub use coordinator::{Action, Coordinator, Event, InputError, Phase, Report};
pub use keyboard::{Key, KeyStroke, KeyboardSimulator};
pub use pause::{status_label, PauseFlag};
pub use window::{WindowError, WindowMonitor};
