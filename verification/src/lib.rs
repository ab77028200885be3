//! Decision logic of a desktop shell's host commands.
//!
//! The centre is the backend proxy: one command that forwards a method, an
//! endpoint and an optional JSON payload to a local HTTP backend and folds
//! every outcome into one response envelope. The library decides what is sent
//! and what is answered; the program around it does the sending.

pub mod call;
pub mod envelope;
pub mod info;
pub mod json;
pub mod logging;
pub mod method;
pub mod request;
pub mod text;

pub use envelope::ApiResponse;
