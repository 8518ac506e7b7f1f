pub mod chat;
pub mod config;
pub mod metrics;
pub mod namespaces;
pub mod pods;
pub mod profile;
pub mod quantity;
pub mod request;
pub mod router;
pub mod text;
