//! Core of an audio capture-and-stream pipeline: PCM frame geometry,
//! bounded byte queues, codec frame chunking, a fan-out client registry,
//! and the decision logic of the capture and playback loops.

pub mod alsa;
pub mod audio_saver;
pub mod error;
pub mod exit_listener;
pub mod ffmpeg;
pub mod net_server;
pub mod pipeline;
pub mod thread_buffer;
