//! Byte buffers with value semantics: a shared, read-only `CFData` and an
//! exclusively owned, growable `CFMutableData`.
use vstd::prelude::*;

pub mod data;

pub use data::{CFData, CFIndex, CFMutableData};
