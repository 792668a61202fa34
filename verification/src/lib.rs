pub mod config;
pub mod middleware;
pub mod models;
pub mod routes;
pub mod services;
pub mod text;
