pub mod countdown_timer;
pub mod detect_idling;
pub mod detect_mouse_state;
pub mod idle;
pub mod pretty_time;
pub mod tray;

pub mod app_config;
pub mod feedback_window;
pub mod license_manager;
pub mod model;
pub mod session_repository;
pub mod session_timer;
pub mod settings_manager;
pub mod settings_system;
pub mod tracking;
