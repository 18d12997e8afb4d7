//! A verified interpreter for the Synacor virtual machine: operand
//! classification, instruction decoding, the execution engine with its
//! cooperative input protocol, the image loader, and a reader for the
//! location descriptions the game prints.
pub mod argument;
pub mod errors;
pub mod instruction;
pub mod memory;
pub mod machine;
pub mod loader;
pub mod laws;
pub mod text;
pub mod location;
