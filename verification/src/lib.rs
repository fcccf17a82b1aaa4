//! Conversion between MessagePack and JSON, with the argument rules of the
//! command-line tool built on it.
//!
//! Every function works on plain values: byte buffers stand for the streams
//! that a caller reads and writes, and file names are strings that are never
//! opened here.

pub mod cli;
pub mod error;
pub mod filetype;
pub mod hexwrap;
pub mod runner;
pub mod transcode;

pub use cli::{Args, InputSource, OutputSink};
pub use error::Error;
pub use filetype::FType;
pub use hexwrap::HexError;
pub use runner::main_runner;
pub use transcode::{json_to_mp, mp_to_json};
