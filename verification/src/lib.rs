//! Content management rules: validation, escaping, templating, access and revision logic.

pub mod access;
pub mod account_actions;
pub mod accounts;
pub mod authentication;
pub mod catalog;
pub mod forms;
pub mod html;
pub mod ids;
pub mod models;
pub mod pages;
pub mod password;
pub mod rate_limit;
pub mod rendering;
pub mod requests;
pub mod revisions;
pub mod security;
pub mod session;
pub mod site_settings;
pub mod text;
pub mod types;
pub mod ui;
