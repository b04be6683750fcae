//! Control plane for the local services a desktop shell depends on: it
//! resolves executables and model weights, validates downloaded artifacts,
//! keeps at most one supervised process per service slot, probes readiness
//! with a bounded budget and makes sure an inference model is registered and
//! answers before it is declared usable.
//!
//! Every decision is a verified function of plain values; the surrounding
//! program performs the I/O that the decisions ask for.

pub mod artifact;
pub mod bringup;
pub mod daemon;
pub mod digest;
pub mod ensurer;
pub mod envfile;
pub mod launch;
pub mod readiness;
pub mod resolver;
pub mod supervisor;
pub mod text;
