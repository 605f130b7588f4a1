//! Orchestration core of a speech-to-text pipeline built around an audio
//! encoder and an autoregressive text decoder.
//!
//! The pipeline cuts a recording into overlapping windows, builds for each
//! window the prompt that reserves a position for every audio embedding,
//! fuses the embeddings into the prompt, generates tokens until a stop
//! condition holds, and joins the transcripts of the windows. The tensor
//! engine that runs the networks, the decoding of audio files and the
//! fetching of model files are the caller's: the library decides, and the
//! caller computes.

pub mod audio;
pub mod cache;
pub mod config;
pub mod download;
pub mod error;
pub mod features;
pub mod fusion;
pub mod generation;
pub mod model;
pub mod prompt;
pub mod random;
pub mod ratio;
pub mod run;
pub mod sampling;
pub mod schedule;
pub mod settings;
pub mod stitch;
