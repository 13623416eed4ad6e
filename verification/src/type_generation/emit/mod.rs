//! The source the plugins add to a generated module, as lines: what each
//! language's shell API declares for the registered effect, built from the
//! effect's variants and the library's decisions about them. Type
//! expressions and serialization code are the code generator's, rendered in
//! its own spelling and handed in as text.
pub mod core_api;
pub mod handler;
pub mod laws;
pub mod lines;
pub mod names;
pub mod request_id;
pub mod request_kind;
