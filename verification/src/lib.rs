//! The logic of an audio output library: buffer layouts, the choice of a stream configuration, and
//! an audio loop that is started and stopped, takes commands and sends out updates.
//!
//! What touches a device or a thread is not here. Where that work alternates with decisions, the
//! decisions are functions from what the work came to, to what is to be done next.
pub mod audio_loop;
pub mod backend;
pub mod channel;
pub mod control;
pub mod delivery;
pub mod device;
pub mod laws;
pub mod listener;
pub mod ring;
pub mod subscription;
pub mod threads;
