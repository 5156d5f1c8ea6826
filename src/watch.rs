use vstd::prelude::*;
use crate::balance::FetchError;
use crate::format::{format_crypto_balance, format_spec};
use crate::text::{is_bitcoin_label, str_eq};

verus! {

/// Base of the block-explorer endpoint that answers Bitcoin address queries.
pub const MEMPOOL_API: &'static str = "https://mempool.space/testnet/api/address";

/// The display name under which alerts are posted.
pub const WEBHOOK_USERNAME: &'static str = "Balance Watcher";

/// One monitored account.
pub struct WatchEntry {
    pub address: String,
    pub chain: String,
    pub rpc_url: String,
    pub alert_balance: u64,
}

/// What a watch entry holds, as plain values.
pub ghost struct EntryView {
    pub address: Seq<char>,
    pub chain: Seq<char>,
    pub rpc_url: Seq<char>,
    pub alert_balance: u64,
}

impl View for WatchEntry {
    type V = EntryView;

    open spec fn view(&self) -> EntryView {
        EntryView {
            address: self.address@,
            chain: self.chain@,
            rpc_url: self.rpc_url@,
            alert_balance: self.alert_balance,
        }
    }
}

impl WatchEntry {
    pub fn new(address: String, chain: String, rpc_url: String, alert_balance: u64) -> (r:
        WatchEntry)
        ensures
            r.address == address,
            r.chain == chain,
            r.rpc_url == rpc_url,
            r.alert_balance == alert_balance,
    {
        WatchEntry { address, chain, rpc_url, alert_balance }
    }
}

/// Which balance adapter serves an entry.
#[derive(PartialEq, Eq, Structural, Clone, Copy, Debug)]
pub enum Adapter {
    Bitcoin,
    Evm,
}

/// The adapter for a chain label: Bitcoin exactly for the label "Bitcoin"
/// (case-sensitive), the EVM adapter for every other label.
pub fn route(chain: &str) -> (r: Adapter)
    ensures
        (r == Adapter::Bitcoin) == is_bitcoin_label(chain@),
        (r == Adapter::Evm) == !is_bitcoin_label(chain@),
{
    proof {
        reveal_strlit("Bitcoin");
        assert("Bitcoin"@ =~= seq!['B', 'i', 't', 'c', 'o', 'i', 'n']);
    }
    if str_eq(chain, "Bitcoin") {
        Adapter::Bitcoin
    } else {
        Adapter::Evm
    }
}

/// The address query URL of the Bitcoin adapter: the base endpoint, a slash
/// and the address.
pub fn bitcoin_query_url(address: &str) -> (r: String)
    ensures
        r@ == MEMPOOL_API@ + "/"@ + address@,
{
    String::from_str(MEMPOOL_API).concat("/").concat(address)
}

/// The content posted to the webhook for an alert message: the message set
/// between two backticks.
pub fn webhook_content(message: &str) -> (r: String)
    ensures
        r@ == "`"@ + message@ + "`"@,
{
    String::from_str("`").concat(message).concat("`")
}

/// Whether a balance lies strictly below its alert threshold.
pub fn should_alert(balance: u64, threshold: u64) -> (r: bool)
    ensures
        r == (balance < threshold),
{
    balance < threshold
}

/// How a log line is reported.
#[derive(PartialEq, Eq, Structural, Clone, Copy, Debug)]
pub enum Level {
    Info,
    Error,
}

/// What one cycle decides for one entry: a log line and, on a threshold
/// breach, the alert message to send.
pub struct EntryReport {
    pub level: Level,
    pub line: String,
    pub alert: Option<String>,
}

/// An entry report as plain values.
pub ghost struct ReportView {
    pub level: Level,
    pub line: Seq<char>,
    pub alert: Option<Seq<char>>,
}

impl View for EntryReport {
    type V = ReportView;

    open spec fn view(&self) -> ReportView {
        ReportView {
            level: self.level,
            line: self.line@,
            alert: match self.alert {
                Some(m) => Some(m@),
                None => None,
            },
        }
    }
}

/// The outcome of a balance fetch as plain values: the balance, or the
/// error's message.
pub open spec fn outcome_view(fetched: Result<u64, FetchError>) -> Result<u64, Seq<char>> {
    match fetched {
        Ok(b) => Ok(b),
        Err(e) => Err(e.message_spec()),
    }
}

/// The log line for a fetched balance.
pub open spec fn balance_line(entry: EntryView, balance: u64) -> Seq<char> {
    entry.chain + " Balance: "@ + format_spec(balance as nat, entry.chain) + " Address: "@
        + entry.address
}

/// The alert message for a balance below the threshold.
pub open spec fn alert_message(entry: EntryView, balance: u64) -> Seq<char> {
    entry.chain + " balance low: "@ + format_spec(balance as nat, entry.chain) + " Address: "@
        + entry.address
}

/// The log line for a failed fetch.
pub open spec fn failure_line(entry: EntryView, message: Seq<char>) -> Seq<char> {
    "Failed to fetch "@ + entry.chain + " balance: "@ + message + " address: "@ + entry.address
}

/// The report for one entry given the outcome of its fetch: a failure is
/// logged as an error and never alerts; a balance is logged and alerts
/// exactly when it is strictly below the threshold.
pub open spec fn report_spec(entry: EntryView, outcome: Result<u64, Seq<char>>) -> ReportView {
    match outcome {
        Ok(b) => ReportView {
            level: Level::Info,
            line: balance_line(entry, b),
            alert: if b < entry.alert_balance {
                Some(alert_message(entry, b))
            } else {
                None
            },
        },
        Err(m) => ReportView { level: Level::Error, line: failure_line(entry, m), alert: None },
    }
}

/// The reports of one cycle: each entry's report from that entry and its own
/// fetch outcome alone.
pub open spec fn cycle_spec(entries: Seq<EntryView>, outcomes: Seq<Result<u64, Seq<char>>>) -> Seq<
    ReportView,
>
    recommends
        entries.len() == outcomes.len(),
{
    Seq::new(entries.len(), |i: int| report_spec(entries[i], outcomes[i]))
}

/// The report for one entry, given the outcome of fetching its balance.
pub fn assess(entry: &WatchEntry, fetched: &Result<u64, FetchError>) -> (r: EntryReport)
    ensures
        r@ == report_spec(entry@, outcome_view(*fetched)),
{
    match fetched {
        Ok(b) => {
            let shown = format_crypto_balance(*b, entry.chain.as_str());
            let line = entry.chain.clone().concat(" Balance: ").concat(shown.as_str()).concat(
                " Address: ",
            ).concat(entry.address.as_str());
            let alert = if should_alert(*b, entry.alert_balance) {
                Some(
                    entry.chain.clone().concat(" balance low: ").concat(shown.as_str()).concat(
                        " Address: ",
                    ).concat(entry.address.as_str()),
                )
            } else {
                None
            };
            EntryReport { level: Level::Info, line, alert }
        },
        Err(e) => {
            let message = e.message();
            let line = String::from_str("Failed to fetch ").concat(entry.chain.as_str()).concat(
                " balance: ",
            ).concat(message.as_str()).concat(" address: ").concat(entry.address.as_str());
            EntryReport { level: Level::Error, line, alert: None }
        },
    }
}

/// The reports of one cycle, one per entry in order, each from its entry and
/// the outcome of fetching that entry's balance.
pub fn assess_all(entries: &Vec<WatchEntry>, fetched: &Vec<Result<u64, FetchError>>) -> (r: Vec<
    EntryReport,
>)
    requires
        entries.len() == fetched.len(),
    ensures
        r@.len() == entries@.len(),
        forall|i: int|
            0 <= i < r@.len() ==> #[trigger] r@[i]@ == cycle_spec(
                entries@.map_values(|e: WatchEntry| e@),
                fetched@.map_values(|f: Result<u64, FetchError>| outcome_view(f)),
            )[i],
{
    let mut reports: Vec<EntryReport> = Vec::new();
    let mut i: usize = 0;
    while i < entries.len()
        invariant
            entries.len() == fetched.len(),
            i <= entries.len(),
            reports@.len() == i,
            forall|k: int|
                0 <= k < i ==> #[trigger] reports@[k]@ == report_spec(
                    entries@[k]@,
                    outcome_view(fetched@[k]),
                ),
        decreases entries.len() - i,
    {
        let report = assess(&entries[i], &fetched[i]);
        reports.push(report);
        i = i + 1;
    }
    reports
}

/// A balance alerts exactly when it lies strictly below the entry's
/// threshold, so a balance equal to the threshold never alerts; a failed
/// fetch never alerts and is logged as an error.
pub proof fn lemma_alert_iff_below(entry: EntryView, balance: u64, message: Seq<char>)
    ensures
        report_spec(entry, Ok(balance)).alert is Some <==> balance < entry.alert_balance,
        report_spec(entry, Ok(balance)).level == Level::Info,
        report_spec(entry, Err(message)).alert is None,
        report_spec(entry, Err(message)).level == Level::Error,
{
}

/// A failed fetch on one entry leaves the reports of every other entry of
/// the cycle as they are: each is what that entry's own outcome gives,
/// whatever the failing entry's outcome would otherwise have been.
pub proof fn lemma_failure_isolated(
    entries: Seq<EntryView>,
    outcomes: Seq<Result<u64, Seq<char>>>,
    other: Seq<Result<u64, Seq<char>>>,
    n: int,
)
    requires
        entries.len() == outcomes.len(),
        outcomes.len() == other.len(),
        0 <= n < entries.len(),
        outcomes[n] is Err,
        forall|i: int| 0 <= i < entries.len() && i != n ==> outcomes[i] == other[i],
    ensures
        cycle_spec(entries, outcomes).len() == entries.len(),
        cycle_spec(entries, outcomes)[n].level == Level::Error,
        cycle_spec(entries, outcomes)[n].alert is None,
        forall|i: int|
            0 <= i < entries.len() && i != n ==> #[trigger] cycle_spec(entries, outcomes)[i]
                == cycle_spec(entries, other)[i] && cycle_spec(entries, outcomes)[i]
                == report_spec(entries[i], outcomes[i]),
{
}

} // verus!
