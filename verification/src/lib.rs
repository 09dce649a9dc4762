pub mod analytics;
pub mod date;
pub mod engine;
pub mod insights;
pub mod locale;
pub mod notify;
pub mod timer;
