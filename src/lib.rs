//! Composable building blocks for token contracts: a balance and allowance
//! ledger, pause gating, block and allow lists, a supply cap, royalty
//! accounting and role-based access control, chained in one fixed order
//! around the base ledger operations.

mod access;
mod blocklist;
mod error;
mod events;
mod example;
mod laws;
mod ledger;
mod lists;
mod pausable;
mod royalty;
mod sum;
mod token;
mod types;

pub use access::AccessControl;
pub use blocklist::FungibleBlockList;
pub use error::{PausableError, TokenError};
pub use events::{emit_paused, emit_unpaused, emit_user_blocked, emit_user_unblocked, Event};
pub use example::{DataKey, ExampleContract};
pub use laws::{
    lemma_allowance_exact_debit, lemma_cap, lemma_conservation, lemma_list_polarity,
    lemma_pause_gating, list_permits,
};
pub use ledger::{delta, AllowanceData, Base};
pub use lists::{AllowListImpl, BlockListImpl, ListPolicy};
pub use pausable::{PauseChecker, Pausable};
pub use royalty::{royalty_amount, Royalties, RoyaltyInfo, BASIS_POINTS_WHOLE};
pub use sum::{balance_sum, value_at};
pub use token::{burn_chain, mint_chain, transfer_chain, Guard, Token};
pub use types::{pair_key, Address, CallContext, Role};
