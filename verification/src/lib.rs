//! The decisions behind using a plain file or a host block device as storage.
//!
//! Nothing in this crate touches a file.  It decides which access comes next and what an answer
//! from the system means; whoever drives it performs the accesses and reports what came back.
pub mod align;
pub mod contents;
pub mod discard;
pub mod error;
pub mod file;
pub mod io_vector;
pub mod offset;
pub mod path;
pub mod probe;
pub mod probe_laws;
pub mod read;
pub mod seek;
pub mod seek_laws;
pub mod setup;
pub mod transfer_laws;
pub mod write;
