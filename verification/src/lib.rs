//! Core logic of a terminal client for Subsonic-compatible music servers:
//! navigation state of the views, the login form, the play queue, the
//! library cache and the session state machine.

pub mod config;
pub mod config_store;
pub mod event;
pub mod fetch;
pub mod id_map;
pub mod keyring_service;
pub mod layout;
pub mod library;
pub mod login_form;
pub mod main_view;
pub mod panels;
pub mod rows;
pub mod selection;
pub mod session;
pub mod sidebar;
pub mod text;
pub mod ui;
pub mod user_data;
