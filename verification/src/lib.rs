//! Health probes, process supervision and configuration reconciliation for a
//! desktop toolchain that drives a local inference backend and a messaging
//! gateway daemon.
//!
//! The library decides; its caller acts. A caller makes the HTTP requests,
//! runs the programs and reads and writes the files, and hands what it saw to
//! the library as plain values.
//!
//! - [`probes`] runs the health battery as a state machine, [`checks`] says
//!   what each check reports, and [`diagnostics`] draws the verdict.
//! - [`supervisor`] follows one external process, and [`classifier`] finds
//!   pairing codes in its output.
//! - [`config`] reconciles the daemon's configuration document, which
//!   [`json`] reads and writes.
//! - [`ollama`], [`openclaw`] and [`setup`] hold what is particular to the
//!   backend, the daemon and the setup helper; [`stream`] and [`replies`]
//!   read the backend's replies, and [`text`] holds the work on characters.

pub mod checks;
pub mod classifier;
pub mod config;
pub mod diagnostics;
pub mod json;
pub mod ollama;
pub mod openclaw;
pub mod probes;
pub mod replies;
pub mod setup;
pub mod stream;
pub mod supervisor;
pub mod text;
