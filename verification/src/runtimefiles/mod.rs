//! The runtime-file endpoints: listing, uploading and deleting update files, and
//! running updates.

pub mod access;
pub mod error;
pub mod response;
pub mod routes;
pub mod state;
pub mod upload;
