use vstd::prelude::*;

verus! {

/// Why a balance could not be had for one watch entry.
pub enum FetchError {
    /// The HTTP request could not be made or got no response.
    Transport(String),
    /// The response body could not be read as text.
    Body(String),
    /// The response body did not have the expected shape.
    Parse(String),
    /// The spent sum reported for an address exceeds its funded sum.
    Underflow { funded: u64, spent: u64 },
    /// The RPC endpoint is not a valid URL.
    InvalidUrl(String),
    /// The account is not a valid 20-byte hex address.
    InvalidAddress(String),
    /// The RPC balance query failed.
    Rpc(String),
    /// The balance does not fit in 64 bits.
    Overflow,
}

impl FetchError {
    /// The text that describes this error in a log line.
    pub open spec fn message_spec(&self) -> Seq<char> {
        match self {
            FetchError::Transport(d) => "Request failed: "@ + d@,
            FetchError::Body(d) => "Failed to read response body as text: "@ + d@,
            FetchError::Parse(d) => "Failed to parse balance response: "@ + d@,
            FetchError::Underflow { .. } => "Spent sum exceeds funded sum"@,
            FetchError::InvalidUrl(d) => "Failed to parse RPC URL: "@ + d@,
            FetchError::InvalidAddress(d) => "Invalid Ethereum address: "@ + d@,
            FetchError::Rpc(d) => "Failed to fetch EVM balance: "@ + d@,
            FetchError::Overflow => "Balance does not fit in 64 bits"@,
        }
    }

    /// The text that describes this error in a log line.
    pub fn message(&self) -> (r: String)
        ensures
            r@ == self.message_spec(),
    {
        match self {
            FetchError::Transport(d) => String::from_str("Request failed: ").concat(d.as_str()),
            FetchError::Body(d) => String::from_str("Failed to read response body as text: ").concat(
                d.as_str(),
            ),
            FetchError::Parse(d) => String::from_str("Failed to parse balance response: ").concat(
                d.as_str(),
            ),
            FetchError::Underflow { .. } => String::from_str("Spent sum exceeds funded sum"),
            FetchError::InvalidUrl(d) => String::from_str("Failed to parse RPC URL: ").concat(
                d.as_str(),
            ),
            FetchError::InvalidAddress(d) => String::from_str("Invalid Ethereum address: ").concat(
                d.as_str(),
            ),
            FetchError::Rpc(d) => String::from_str("Failed to fetch EVM balance: ").concat(
                d.as_str(),
            ),
            FetchError::Overflow => String::from_str("Balance does not fit in 64 bits"),
        }
    }
}

/// Net balance of a Bitcoin address from its funded and spent output sums:
/// `funded - spent`, or `Underflow` when more was spent than funded.
pub fn bitcoin_net_balance(funded: u64, spent: u64) -> (r: Result<u64, FetchError>)
    ensures
        funded >= spent ==> r == Ok::<u64, FetchError>((funded - spent) as u64),
        funded < spent ==> r == Err::<u64, FetchError>(FetchError::Underflow { funded, spent }),
{
    if funded >= spent {
        Ok(funded - spent)
    } else {
        Err(FetchError::Underflow { funded, spent })
    }
}

} // verus!
