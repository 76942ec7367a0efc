//! Verified core of a small site-generator shell.
//!
//! The library prepares the HTTP request that asks a local inference server
//! for a generated website, interprets the server's reply by extracting an
//! embedded JSON object with `html`, `css` and `js` fields, and decides the
//! outcome of a save-file dialog.  All network and dialog I/O lives outside
//! this crate; the functions here work on plain values and carry contracts.

pub mod errors;
pub mod jsondoc;
pub mod request;
pub mod response;
pub mod save;
pub mod textops;
