pub mod event;
pub mod license;
pub mod session;
pub mod settings;
pub mod device;
pub mod welcome;
