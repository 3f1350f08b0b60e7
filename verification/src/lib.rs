//! Decision and text logic of the herdr focus notifier: command-line parsing,
//! turning herdr plugin events into desktop notifications, the active
//! notification list, lock-screen detection, settings, and the text handed to
//! the notifier.

pub mod cli;
pub mod config;
pub mod delivery;
pub mod event;
pub mod flow;
pub mod icons;
pub mod notification;
pub mod presence;
pub mod state;
pub mod text;
