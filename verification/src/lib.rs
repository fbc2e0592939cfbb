//! Reads and changes the desktop background on Linux desktops and Windows.
//!
//! The library decides and its caller acts: every function here computes
//! what has to be run, read or written, or what an answer means, and leaves
//! the running, reading and writing to the caller. Nothing in it touches the
//! environment, the file system or a process.
//!
//! - [`linux`] picks the backend for a desktop and leads the caller through
//!   an operation, one step at a time.
//! - [`windows`] prepares and reads the values that the system calls take
//!   and give.
//! - [`process`] describes commands and judges how they ended.
//! - [`normalize`] turns stored values into paths and paths into stored
//!   values.
//! - [`text`] holds the scans over characters that the others share.

pub mod error;
pub mod linux;
pub mod mode;
pub mod normalize;
pub mod process;
pub mod text;
pub mod windows;

pub use error::Error;
pub use mode::Mode;
