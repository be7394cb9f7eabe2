//! Verified core of a graphical download manager.
pub mod actions;
pub mod app;
pub mod assoc;
pub mod autostart;
pub mod batch;
pub mod downloads;
pub mod edits;
pub mod effect;
pub mod engine;
pub mod ext_info;
pub mod fmt;
pub mod i18n;
pub mod icons;
pub mod launch;
pub mod laws;
pub mod log;
pub mod menus;
pub mod model;
pub mod names;
pub mod nmhost;
pub mod notes;
pub mod order;
pub mod panels;
pub mod progress;
pub mod queues;
pub mod rules;
pub mod scan;
pub mod shortcuts;
pub mod sounds;
pub mod spans;
pub mod state;
pub mod text;
pub mod theme;
pub mod tray;
pub mod twin;
pub mod update;
