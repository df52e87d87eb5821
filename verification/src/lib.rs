//! Decision logic of a daemon that manages the Zenbook Duo's detachable keyboard and its two
//! internal panels.
pub mod ambient_light;
pub mod bt_readers;
pub mod config;
pub mod control;
pub mod daemon_socket;
pub mod dbus_state;
pub mod dwt;
pub mod events;
pub mod hex;
pub mod idle_detection;
pub mod keyboard_battery;
pub mod keyboard_battery_bt;
pub mod keyboard_bt;
pub mod keyboard_usb;
pub mod polkit;
pub mod secondary_coordinator;
pub mod secondary_display;
pub mod seqs;
pub mod session;
pub mod session_bus;
pub mod session_client;
pub mod state;
pub mod state_manager;
pub mod text;
pub mod unix_pipe;
pub mod usb_keyboard_ports;
pub mod virtual_keyboard;
