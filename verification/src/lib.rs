//! Zero is a single-pass erasure tool: it overwrites the content of files with
//! zero bytes and forces the write to stable storage. It does not descend
//! into directories and does not tell what it does unless it is asked to, and
//! it prompts the user before it works on an absolute path.
//!
//! This crate is the core of the tool, free of input and output. The program
//! is a machine, [`Zero`], that is resumed with the reply to its last request
//! and runs until it needs the outside world again; whoever drives it touches
//! the file system and the terminal. Everything that the program decides is
//! decided here: which paths it asks about and in which order, when it
//! prompts and how it reads the answer, what it writes to its streams, and
//! how a run ends.
//!
//! - [`settings`], [`error`], [`status`], [`text`]: the options of a run, what
//!   can end it early, and the texts and codes the program uses.
//! - [`prompt`], [`report`]: the authorization gate and the lines written.
//! - [`protocol`]: the requests of the program and the replies to them.
//! - [`engine`]: the program itself.
//! - [`model`]: the program as a mathematical machine, against which the
//!   engine is proved.
//! - [`laws`]: what holds of every step of that machine.
//! - [`world`], [`walk`], [`sweep`], [`journey`]: the outside world as the
//!   program meets it, and what a whole run comes to in it.
//! - [`opts`], [`strings`]: the flags of the command line, read with
//!   `getopts`, and the text operations of the standard library that the
//!   program relies on.
//!
//! The overwrite is a best effort on the content of a file. It does not reach
//! the name of the file or its timestamps, and promises nothing against
//! journaling or copy-on-write file systems, snapshots, or the remapping that
//! flash storage does.
pub mod engine;
pub mod error;
pub mod journey;
pub mod laws;
pub mod model;
pub mod opts;
pub mod prompt;
pub mod protocol;
pub mod report;
pub mod settings;
pub mod status;
pub mod strings;
pub mod sweep;
pub mod text;
pub mod walk;
pub mod world;

pub use crate::engine::Zero;
pub use crate::error::Error;
