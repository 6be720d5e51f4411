//! Forum domain logic: home workbench, search, taxonomy, moderation,
//! notifications, files and the mappings that the storage layer relies on.
pub mod bridge;
pub mod home;
pub mod home_listing;
pub mod search;
pub mod search_hits;
pub mod search_store;
pub mod sorting;
pub mod text;
pub mod comments;
pub mod comment_threads;
pub mod taxonomy;
pub mod reports;
pub mod announcements;
pub mod posts;
pub mod notifications;
pub mod moderation;
pub mod reactions;
pub mod users;
pub mod events;
pub mod error;
pub mod rbac;
pub mod user_admin;
pub mod admin;
pub mod audit_csv;
pub mod admin_rows;
pub mod feedback;
pub mod files;
pub mod integrations;
pub mod worker;
pub mod config;
pub mod auth;
pub mod site;
pub mod routes;
pub mod demo_seed;
pub mod user;
pub mod forms;
pub mod page_data;
pub mod page_requests;
