//! Games that are loaded at run time.

pub mod python;
