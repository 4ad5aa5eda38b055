//! Control core of a keyboard-driven terminal launcher for game profiles.
//!
//! The screens of the interface are mutually exclusive windows. Exactly one
//! of them is current; it alone is drawn and it alone receives keys. This
//! crate holds the windows' state, the rules by which one key changes that
//! state, and the rules by which the current window changes. Drawing, the
//! terminal session, the event source and the profile store live with the
//! caller, which performs what [`app::Outcome`] asks for and reports back.

pub mod key;
pub mod window;
pub mod profile;
pub mod text;
pub mod cursor;
pub mod widget;
pub mod welcome;
pub mod bottom_nav;
pub mod profiles_tab;
pub mod channel;
pub mod profile_creator;
pub mod home;
pub mod app;
pub mod laws;
