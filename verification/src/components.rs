//! The panels of the dashboard, each a state machine over actions.

pub mod cron;
pub mod cron_popup;
pub mod home;
pub mod users;
