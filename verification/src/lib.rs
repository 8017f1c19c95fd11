//! Claims of an airdrop on the home ledger, each proved by a message that
//! was attested on a foreign chain, and each honoured at most once.

pub mod bytes;
pub mod emitter;
pub mod error;
pub mod ledger;
pub mod message;
pub mod program;

pub use emitter::{EmitterRegistry, ForeignEmitter};
pub use error::AirdropError;
pub use ledger::{ClaimLedger, ClaimStatus, CreateOutcome};
pub use message::{AirdropMessage, FormatError};
pub use program::{claim, deposit, initialize, Claim, Deposit, Initialize};
