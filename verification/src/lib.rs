//! Verified core of an off-screen frame-capture pipeline.
//!
//! Frames rendered to an off-screen surface are read back from device
//! memory (correcting for hardware row-alignment padding) and fanned out to
//! a set of encoders that turn the live image stream into durable media
//! artifacts. The capture state machine, the padding-stripping readback
//! step, and the encoder fan-out with finalize-once semantics live here;
//! the host render loop and all file and device I/O stay outside.

pub mod any_encoder;
pub mod capture;
pub mod encoder;
pub mod errors;
pub mod frames;
pub mod gif;
pub mod gif_bindings;
pub mod h264_bindings;
pub mod image_buffer;
pub mod mp4_bindings;
pub mod mp4_ffmpeg_cli;
pub mod mp4_openh264;
pub mod nal;
pub mod readback;
pub mod scheduler;
pub mod text;
