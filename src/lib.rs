//! A contract entry point that checks whether the account handed to it has
//! signed the invoking transaction, and logs a line when it has.
//!
//! The runtime's logging side channel is modelled as a list of lines that the
//! entry point appends to; the host that runs the program emits them.
pub mod accounts;
pub mod program;

pub use accounts::{CheckSigner, SignerAccount, SignerError};
pub use program::{check_signer, CONGRATULATIONS};
