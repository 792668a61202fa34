pub mod auth;
pub mod deploy;
pub mod health;
pub mod projects;
