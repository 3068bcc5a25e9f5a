pub mod instructions;
pub mod mutation;
pub mod state;
