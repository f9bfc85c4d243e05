//! Identity and session subsystem for a mail-server administration panel.
//!
//! The crate manages login sessions in a durable embedded store, drives the
//! password-reset workflow, decides how inbound requests are authenticated,
//! and hands outbound mail to a background dispatch queue.

pub mod api_types;
pub mod app_connector;
pub mod auth;
pub mod config;
pub mod email_address;
pub mod email_service;
pub mod error;
pub mod groups;
pub mod headers;
pub mod importer;
pub mod middleware;
pub mod password;
pub mod password_reset;
pub mod random;
pub mod random_users;
pub mod session;
pub mod stalwart_config;
pub mod store;
pub mod text;
