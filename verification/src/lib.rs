pub mod crypto;
pub mod entropy;
pub mod errors;
pub mod models;
pub mod text;
pub mod services;
pub mod routes;
pub mod handlers;
pub mod jobs;
