//! Balance watching for Bitcoin and EVM-chain accounts: per-chain dispatch,
//! net-balance computation, display formatting and the per-cycle decision
//! of which entries raise an alert.

pub mod balance;
pub mod evm;
pub mod format;
pub mod text;
pub mod watch;

pub use balance::{bitcoin_net_balance, FetchError};
pub use evm::{balance_request, evm_address_param, parse_quantity, prepare_evm_query};
pub use format::{format_crypto_balance, get_conversion_factor};
pub use watch::{
    assess, assess_all, bitcoin_query_url, route, should_alert, webhook_content, Adapter,
    EntryReport, Level, WatchEntry, MEMPOOL_API, WEBHOOK_USERNAME,
};
