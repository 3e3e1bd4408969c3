//! Chip classification and build-configuration derivation for scaffolding
//! embedded firmware projects.

pub mod artifacts;
pub mod chip;
pub mod plan;
pub mod scaffold;
pub mod text;
