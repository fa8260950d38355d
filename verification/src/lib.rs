//! A small library that generates randomized passwords from a configurable
//! character composition: four character classes (lowercase, uppercase,
//! digits, special symbols) may each be enabled or disabled, and a password
//! of a requested length is drawn from the enabled classes.

pub mod clipboard;
pub mod generator;

pub use clipboard::ClipboardError;
pub use generator::CompositionCodes;
pub use generator::GenerationError;
pub use generator::PasswordGenerator;
