//! Descriptions of TypeScript types, built to print TypeScript definitions of the models.

pub mod derive;
pub mod ty;

pub use ty::{BinaryInteger, Discriminator, TypeScriptType};
