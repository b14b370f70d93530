//! Reconciliation core of a race-weekend notification bot: the data model,
//! the session scheduler, the content fingerprint and the plans that keep the
//! posted messages in step with the calendar.

pub mod calendar;
pub mod config;
pub mod error;
pub mod fingerprint;
pub mod model;
pub mod notifs;
pub mod order;
pub mod record;
pub mod render;
pub mod rows;
pub mod schedule;
pub mod text;
pub mod tools;
