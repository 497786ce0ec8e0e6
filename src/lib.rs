//! Safe, verified building blocks for both sides of a versioned audio plugin
//! ABI: typed events, event queues, extension negotiation, audio buffers, the
//! audio-processor lifecycle and host timers.
pub mod events;
pub mod event_io;
pub mod audio;
pub mod plugin_process;
pub mod process;
pub mod extensions;
pub mod timers;
pub mod state;
pub mod thread_check;
