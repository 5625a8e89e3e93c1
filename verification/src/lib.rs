//! A two-party atomic-swap escrow over a ledger of token accounts.

pub mod accounts;
pub mod address;
pub mod error;
pub mod initialize;
pub mod laws;
pub mod layout;
pub mod ledger;
pub mod refund;
pub mod state;
pub mod table;
pub mod take;

pub use accounts::Initialize;
pub use accounts::Refund;
pub use accounts::TakeEscrow;
pub use address::Address;
pub use error::ErrorClass;
pub use error::EscrowError;
pub use initialize::initialize;
pub use layout::decode;
pub use layout::encode;
pub use layout::RECORD_SPACE;
pub use ledger::Ledger;
pub use ledger::LedgerView;
pub use refund::refund;
pub use state::EscrowState;
pub use state::TokenAccount;
pub use take::take_escrow;
