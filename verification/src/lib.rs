pub mod fleet;
pub mod intune;
pub mod jamf;
pub mod kandji;
pub mod local;
pub mod platform;
pub mod server;
pub mod store;
pub mod sys;
pub mod text;
pub mod types;
