//! The native shell of a desktop timer: the decisions that the host
//! framework's callbacks make (tray menu, close button, global shortcut,
//! idle-time query, tray icon), stated and proved as plain functions.

pub mod text;
pub mod menu;
pub mod shell;
pub mod shortcut;
pub mod idle;
pub mod icon;
