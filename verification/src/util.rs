//! General utilities for ciphers and their builders.

pub mod text;
