//! Host-side USB mass storage.

pub mod block;
pub mod descriptor;
pub mod fault;
pub mod laws;
pub mod msc;
pub mod sdmmc;
pub mod storage;
pub mod timesource;
pub mod wire;
