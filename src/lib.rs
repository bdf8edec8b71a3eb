//! Chunk-processing worker: text preprocessing, clustering, sentiment,
//! spike detection and result shaping, with the store and network left to
//! the caller.

pub mod text;
pub mod types;
pub mod preprocess;
pub mod spike;
pub mod config;
pub mod logging;
pub mod llm;
pub mod embeddings;
pub mod clustering;
pub mod processor;
pub mod storage;
pub mod service;
