//! Backend library for a desktop document editor: user settings, a
//! recent-files list, a formula snippet library, bibliography entry
//! assembly, and a content-addressed version history of documents.
//!
//! Everything that computes or decides lives here with a contract; the
//! surrounding application performs the file and network traffic and hands
//! this library plain values.

pub mod bib;
pub mod codec;
pub mod files;
pub mod formulas;
pub mod hashing;
pub mod recent_files;
pub mod settings;
pub mod stamp;
pub mod text;
pub mod versions;
