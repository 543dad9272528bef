//! An incremental builder for binary component artifacts.
//!
//! The builder assigns zero-based, call-order indices to every registered
//! construct (one independent index space per construct category) and batches
//! consecutive registrations of the same section kind into a single physical
//! section of the output. Embedded core modules always get a standalone
//! section. The byte-level encoding of section contents is delegated to
//! `wasm_encoder`; everything the builder decides — which counter advances,
//! when a section is sealed, in what order sections and entries appear — is
//! stated in contracts over a mathematical model of the output and verified.

pub mod kinds;
pub mod model;
pub mod encode;
pub mod builder;
pub mod laws;
