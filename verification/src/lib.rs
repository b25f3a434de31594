//! An authority-gated calculator record.
//!
//! A record holds two signed 64-bit operands and the identity that may change
//! them. Mutations pass an authority gate before they reach the record;
//! computations read the record, never change it, and append one observation
//! to an event log for every run, whether or not a number came out.

pub mod arithmetic;
pub mod error;
pub mod event;
pub mod gate;
pub mod identity;
pub mod instructions;
pub mod laws;
pub mod state;

pub use error::CalculatorError;
pub use event::{CalculatorEvent, EventLog, Operation};
pub use gate::authorize;
pub use identity::Identity;
pub use instructions::{
    addition, compute, division, init_calculator, multiplication, mutate, subtraction,
    update_authority, update_x, update_y, ChangeInternalState, Compute, InitializeCalculator,
};
pub use state::{Calculator, CalculatorAccount, Mutation};
