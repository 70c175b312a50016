//! Event/command dispatch and clipboard-integrity logic of a native
//! application shell: a registry of single-slot callbacks, a menu table
//! builder that maps native menu tags back to commands, and a clipboard codec
//! that binds metadata to the text it was written with.
use vstd::prelude::*;

pub mod hash;
pub mod text;
pub mod clipboard;
pub mod menu;
pub mod platform;
pub mod dialog;
