//! Keeps a live server pool in step with a remotely published Online Config
//! (SIP008) document: one bounded fetch, check and apply cycle per tick.
pub mod content;
pub mod cycle;
pub mod pool;
pub mod service;
