//! Decisions and bookkeeping of the desktop notification plugin.
pub mod commands;
pub mod desktop;
pub mod keyed;
pub mod laws;
pub mod listeners;
pub mod models;

pub use crate::models::{ActiveNotification, AppConfig, ExtraPayload, Error, NotificationBuilder, NotificationData, PermissionState};
