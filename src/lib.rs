//! Sentence embeddings from a BERT-family encoder stored on disk.
//!
//! The library locates the model artifacts, builds the tokenizer and the
//! encoder from their bytes, runs inference, and reduces token states to one
//! vector per text by masked mean pooling.
pub mod artifacts;
pub mod model;
pub mod pooling;
pub mod service;
