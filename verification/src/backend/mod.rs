//! Everything behind the window: portal client rules, settings, connectivity
//! monitoring and the re-authentication controller.

pub mod auth;
pub mod authentication;
pub mod config;
pub mod controller;
pub mod downloader;
pub mod logger;
pub mod network_monitor;
pub mod policy;
pub mod text;
