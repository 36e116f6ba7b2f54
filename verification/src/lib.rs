//! Linux capability sets and the versioned binary codec for the
//! `security.capability` extended attribute.
//!
//! The library models a capability set as a 64-bit bitmask over a fixed,
//! append-only catalog of capabilities, provides the full set algebra and
//! ordered iteration over members, and converts between the in-memory
//! file-capability record and the kernel's raw byte layout.

pub mod bitops;
pub mod cap;
pub mod capset;
pub mod error;
pub mod filecaps;
