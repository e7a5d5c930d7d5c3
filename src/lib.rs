//! Runs external Sierra compiler binaries under resource ceilings and turns
//! their exit status into a diagnosis.
pub mod compiler;
pub mod diagnosis;
pub mod errors;
pub mod resource_limits;
pub mod text;
pub mod laws;
