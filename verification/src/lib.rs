//! Locates the `tesseract` OCR executable and prepares and interprets its
//! command-line invocations.
//!
//! The library is split along the boundary between logic and process I/O:
//! everything that can be stated and proved — the discovery order, the
//! argument vectors, the mapping from a process's exit status and captured
//! streams to a typed result — lives here. Spawning the child process itself
//! is left to the caller, who hands the captured outcome back in.

pub mod command;
pub mod error;
pub mod locator;
pub mod output;
pub mod text;
