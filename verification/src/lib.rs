//! Terminal-panel status bar core: element sizing, pointer hit-testing,
//! frame handling for the panel wire protocol, and the supervision rules for
//! panel instances.

pub mod clients;
pub mod data;
pub mod logging;
pub mod modules;
pub mod terminals;
pub mod tui;
pub mod utils;
