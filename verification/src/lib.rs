//! Authorisation of token-for-token receipts on a ledger.
//!
//! One operation is accepted: take an amount out of a source holding of one value
//! type and have the same amount of another value type minted into a destination
//! holding. The library decides whether the caller is entitled to that, and where
//! it is, it names the one call that goes to the token ledger.
//!
//! - [`instruction`] holds the operation and its wire format.
//! - [`processor`] holds the checks, their order, and the hand-over to the ledger.
//! - [`token`] holds what is relied on of the token ledger's own code.
//! - [`error`] holds the kinds of failure and the codes they are reported under.
//! - [`pubkey`] holds the account identifier.

pub mod error;
pub mod instruction;
pub mod processor;
pub mod pubkey;
pub mod token;

pub use error::{FailureKind, ResultCode};
pub use instruction::{instruction_recv, AccountMeta, DecodeError, FactoryInstruction, Instruction};
pub use processor::Processor;
pub use pubkey::Pubkey;
pub use token::{Holding, Mint, RecordError};
