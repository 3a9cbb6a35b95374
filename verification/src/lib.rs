//! A storage node of a distributed store.
//!
//! The node keeps chunks of data in files, for a backend that it is connected to and for peers.
//! What it decides is here: which configuration it accepts, which chunk it stores and where, how
//! it answers a command, when it connects again. What it does to files and connections is up to
//! the caller: each task is a value that says what comes next and that is resumed with the outcome.

pub mod answer_laws;
pub mod chunk_id;
pub mod cli;
pub mod cli_laws;
pub mod command_laws;
pub mod commands;
pub mod config;
pub mod config_laws;
pub mod disk;
pub mod gib;
pub mod json;
pub mod message_laws;
pub mod network;
pub mod path;
pub mod progress_laws;
pub mod session_laws;
pub mod setup;
pub mod startup;
pub mod step_laws;
pub mod storage;
pub mod storage_client;
pub mod storage_laws;
pub mod text;
pub mod text_laws;
pub mod webrtc;
pub mod webrtc_laws;
