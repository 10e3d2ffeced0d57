pub mod address;
pub mod derive;
pub mod draw;
pub mod effect;
pub mod error;
pub mod instruction;
pub mod laws;
pub mod processor;
pub mod sampling;
pub mod state;
pub mod wire;
