//! Verified core of a desktop companion for a hosted telephony web client:
//! phone-number clean-up, configuration defaults and checks, translations,
//! and the decisions behind the tray, hotkeys, windows and call pop-up.

pub mod text;
pub mod search;
pub mod digits;
pub mod phone;
pub mod clipboard;
pub mod translations;
pub mod i18n;
pub mod config;
pub mod inject;
pub mod wide;
pub mod mailto;
pub mod popup;
pub mod webclient;
pub mod hotkeys;
pub mod tray;
pub mod registry;
