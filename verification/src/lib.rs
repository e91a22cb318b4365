//! Core of a small media fetcher: a progress-tracked file downloader model,
//! the naming policy that binds an asset to its destination file, the
//! progress-monitor decisions, and the batch plan that launches one transfer
//! per requested asset kind. All byte accounting and every decision the
//! fetcher takes is verified here; the surrounding process does the network
//! and file work and hands the results back as plain values.

pub mod asset;
pub mod batch;
pub mod errors;
pub mod monitor;
pub mod resolve;
pub mod transfer;
