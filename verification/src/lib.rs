pub mod account;
pub mod consistency;
pub mod error;
pub mod events;
pub mod laws;
pub mod ledger;
pub mod model;
pub mod snapshot;
pub mod supply;
pub mod table;

pub use account::{AccountId, Delegation};
pub use error::Error;
pub use events::{Approval, Transfer, VotingStartedTime};
pub use ledger::Erc20;
pub use model::Call;
pub use snapshot::Snapshot;
