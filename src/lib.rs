//! Console bridge between an operator's terminal and an emulated 8080
//! machine: key translation, the control overlay, paced text injection and
//! the serial output gate.

pub mod keys;
pub mod machine;
pub mod pacing;
