pub mod deployment;
pub mod project;
pub mod target;
