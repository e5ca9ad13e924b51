//! The messages of the dataspace protocol and their JSON-LD building blocks.
pub mod common;
pub mod transfer;
pub mod contract;
pub mod metadata;
