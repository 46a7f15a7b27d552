pub mod api;
pub mod labels;
pub mod panel;
pub mod types;

pub use panel::DashboardApp;
