//! Runtime logic of a floating synced-lyrics overlay: window modes, persisted
//! settings, tray-menu state, connectivity decisions and the server updater.

pub mod text;
pub mod mode;
pub mod runtime;
pub mod update;
pub mod settings;
pub mod window;
pub mod network;
pub mod lock;
pub mod menu;
pub mod scripts;
pub mod click_through;
pub mod commands;
