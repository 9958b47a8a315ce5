//! Locates named memory-layout offsets in decompilation dumps and raw binary
//! images, compares the resulting reports, and drives the capture of a live
//! process's readable memory.

pub mod aob;
pub mod bytes;
pub mod config;
pub mod differ;
pub mod exporter;
pub mod finders;
pub mod hex;
pub mod memory;
pub mod models;
pub mod pattern;
pub mod scanner;
pub mod text;
