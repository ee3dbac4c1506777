//! A three-party escrow: a buyer deposits, and an arbiter later releases the deposit to the
//! seller or refunds it to the buyer.

pub mod contract;
pub mod error;
pub mod identity;
pub mod laws;
pub mod model;
pub mod record;
pub mod state;
pub mod transfer;

pub use contract::EscrowContract;
pub use error::{EscrowError, TransferFailed};
pub use identity::Identity;
pub use model::Operation;
pub use record::EscrowRecord;
pub use state::EscrowState;
pub use transfer::{Holder, Transfer};
