//! A static-analysis rule that detects uses of the qualified identifier
//! `flecs::With`.
//!
//! The host pipeline parses and name-resolves source text, walks the resolved
//! tree itself, and hands this crate one expression node per call. The crate
//! answers with the findings for that node: a direct reference to the banned
//! symbol, or the banned symbol supplied as an explicit generic argument on a
//! call. Rendering diagnostics, severity, and aggregation across files stay
//! with the host.

pub mod ast;
pub mod matcher;
pub mod scanner;
