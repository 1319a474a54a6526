//! A verified lock script for selling tokens at a fixed price.
//!
//! A sale cell holds a stock of tokens together with the capacity it has
//! collected so far.  Anyone may take tokens out of the cell, provided the
//! transaction adds exactly the right amount of capacity in exchange:
//! the capacity gained must equal the tokens released multiplied by the
//! unit cost fixed in the script's arguments.  The designated owner,
//! identified by a lock-hash digest in the arguments, may instead
//! restructure or withdraw from the sale freely.
//!
//! The validator is a pure function over a snapshot of the surrounding
//! transaction; the host runtime gathers the snapshot and surfaces the
//! verdict (see [`validate::validate_transaction`]).

pub mod args;
pub mod cells;
pub mod error;
pub mod validate;

pub use cells::Cell;
pub use error::Error;
pub use error::HostFault;
pub use validate::Transaction;
pub use validate::validate_transaction;
