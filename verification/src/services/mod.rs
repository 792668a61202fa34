pub mod ipfs;
pub mod pinata;
pub mod store;
pub mod upload;
