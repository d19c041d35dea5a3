//! Core logic of the DragonFoxVPN tray client: parsing of the switcher
//! backend's pages, network-address validation, routing command plans,
//! the VPN connection state machine and its health monitor.

pub mod text;
pub mod system;
pub mod vpn_runtime;
pub mod country;
pub mod api;
pub mod icons;
pub mod state;
pub mod config;
pub mod daemon_ipc;
pub mod locale;
pub mod daemon;
pub mod autostart;
pub mod instance;
pub mod dialogs;
pub mod location_list;
