//! Core logic of a cafeteria-menu chat bot: resolving an ambiguous day
//! request against the list of days the menu provider has data for,
//! rendering the selected day's menu, and the retry state machine used
//! for one-time command registration.

pub mod commands;
pub mod date;
pub mod menu;
pub mod registrar;
pub mod render;
pub mod resolver;
