//! Push notification relay for wallet clients: configuration, tenants,
//! providers, request validation and the push delivery flow.
pub mod codec;
pub mod error;
pub mod handlers;
pub mod middleware;
pub mod stores;
pub mod text;
pub mod blob;
pub mod providers;
pub mod config;
pub mod relay;
pub mod authentication;
pub mod environment;
pub mod jwt_validation;
pub mod request_id;
pub mod store;
pub mod supabase;
