//! What type generation decides: which names the generated shell API claims,
//! what is recorded about each effect, which effect a generated declaration
//! belongs to, and what each plugin adds to a generated package.
//!
//! Reflecting the app's types and writing the generated files is the work of
//! facet-generate and of the program that drives it; everything here is the
//! logic between the two, on plain values.
pub mod boltffi;
pub mod core_plugin;
pub mod effects;
pub mod emit;
pub mod error;
pub mod format;
pub mod generator;
pub mod handler_plugin;
pub mod kind_spelling;
pub mod naming;
pub mod plugins;
pub mod shell_handler;
pub mod shell_handler_plugin;
pub mod text;
pub mod validation;
