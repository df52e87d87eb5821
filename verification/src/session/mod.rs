//! The part of the daemon that runs inside a desktop session.
pub mod ambient;
pub mod apply;
pub mod battery_monitor;
pub mod battery_notices;
pub mod display;
pub mod display_mode;
pub mod notifications;
pub mod orientation;
pub mod osk;
pub mod reconcile;
pub mod tablet_mapping;
