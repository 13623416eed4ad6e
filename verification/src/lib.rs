//! The side-effect-free core of a Crux app: the effect requests it makes of
//! the shell, how the shell's answers are routed back, and the type
//! generation that describes both to the shell.
pub mod bridge;
pub mod capability;
pub mod command;
pub mod key_value;
pub mod middleware;
pub mod operation;
pub mod platform;
pub mod playground;
pub mod render;
pub mod sender;
pub mod steps;
pub mod stream;
pub mod type_generation;
pub mod typegen;
