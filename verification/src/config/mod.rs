//! Configuration of the adapter.

pub mod com_params;
pub mod configfile;
pub mod layers;
pub mod vehicle;
