//! Core logic of a small GitHub dashboard: navigation between pages, the
//! repository and branch panels, the texts they show, and the requests they
//! make of the GitHub REST API.

pub mod app;
pub mod dashboard;
pub mod github_api;
pub mod pages;
pub mod text;
pub mod state;
pub mod status;
