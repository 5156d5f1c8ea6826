use vstd::prelude::*;
use crate::balance::FetchError;

verus! {

/// The value of a hexadecimal digit (either case), or `None` for any other
/// character.
pub open spec fn hex_digit_value(c: char) -> Option<nat> {
    if '0' <= c && c <= '9' {
        Some((c as nat - '0' as nat) as nat)
    } else if 'a' <= c && c <= 'f' {
        Some((c as nat - 'a' as nat + 10) as nat)
    } else if 'A' <= c && c <= 'F' {
        Some((c as nat - 'A' as nat + 10) as nat)
    } else {
        None
    }
}

/// Whether every character is a hexadecimal digit.
pub open spec fn all_hex(s: Seq<char>) -> bool {
    forall|i: int| 0 <= i < s.len() ==> (#[trigger] hex_digit_value(s[i])) is Some
}

/// The value of a string of hexadecimal digits, most significant first.
pub open spec fn hex_value(s: Seq<char>) -> nat
    decreases s.len(),
{
    if s.len() == 0 {
        0
    } else {
        hex_value(s.drop_last()) * 16 + match hex_digit_value(s.last()) {
            Some(d) => d,
            None => 0,
        }
    }
}

/// Whether a string begins with "0x".
pub open spec fn has_hex_prefix(s: Seq<char>) -> bool {
    s.len() >= 2 && s[0] == '0' && s[1] == 'x'
}

/// A string without its leading "0x", if it has one.
pub open spec fn strip_hex_prefix(s: Seq<char>) -> Seq<char> {
    if has_hex_prefix(s) { s.subrange(2, s.len() as int) } else { s }
}

/// Whether a string is an EVM account address: 40 hexadecimal digits (20
/// bytes), optionally after "0x".
pub open spec fn is_evm_address(s: Seq<char>) -> bool {
    strip_hex_prefix(s).len() == 40 && all_hex(strip_hex_prefix(s))
}

/// Whether a string is an RPC quantity: "0x" and at least one hexadecimal
/// digit.
pub open spec fn is_quantity(s: Seq<char>) -> bool {
    has_hex_prefix(s) && s.len() > 2 && all_hex(s.subrange(2, s.len() as int))
}

/// The value of an RPC quantity.
pub open spec fn quantity_value(s: Seq<char>) -> nat {
    hex_value(s.subrange(2, s.len() as int))
}

/// The value of one hexadecimal digit.
fn hex_digit(c: char) -> (r: Option<u8>)
    ensures
        match hex_digit_value(c) {
            Some(d) => r == Some(d as u8) && d < 16,
            None => r is None,
        },
{
    if '0' <= c && c <= '9' {
        Some(((c as u32) - ('0' as u32)) as u8)
    } else if 'a' <= c && c <= 'f' {
        Some(((c as u32) - ('a' as u32) + 10) as u8)
    } else if 'A' <= c && c <= 'F' {
        Some(((c as u32) - ('A' as u32) + 10) as u8)
    } else {
        None
    }
}

/// Whether `s` begins with "0x".
fn hex_prefixed(s: &str) -> (r: bool)
    ensures
        r == has_hex_prefix(s@),
{
    s.unicode_len() >= 2 && s.get_char(0) == '0' && s.get_char(1) == 'x'
}

/// The address in the form an RPC call takes: "0x" and its 40 hexadecimal
/// digits. `InvalidAddress` unless the text is 40 hexadecimal digits,
/// optionally after "0x".
pub fn evm_address_param(address: &str) -> (r: Result<String, FetchError>)
    ensures
        is_evm_address(address@) ==> (r matches Ok(p) && p@ == "0x"@ + strip_hex_prefix(address@)),
        !is_evm_address(address@) ==> r matches Err(FetchError::InvalidAddress(_)),
{
    let n = address.unicode_len();
    let start: usize = if hex_prefixed(address) { 2 } else { 0 };
    let ghost body = strip_hex_prefix(address@);
    assert(body =~= address@.subrange(start as int, n as int));
    if n - start != 40 {
        return Err(FetchError::InvalidAddress(String::from_str("expected 40 hex digits")));
    }
    let mut i: usize = start;
    while i < n
        invariant
            n == address@.len(),
            start <= i <= n,
            body == address@.subrange(start as int, n as int),
            body == strip_hex_prefix(address@),
            forall|k: int| start <= k < i ==> (#[trigger] hex_digit_value(address@[k])) is Some,
        decreases n - i,
    {
        let c = address.get_char(i);
        if let None = hex_digit(c) {
            assert(body[i - start] == c);
            assert(!all_hex(body));
            return Err(FetchError::InvalidAddress(String::from_str("expected 40 hex digits")));
        }
        i = i + 1;
    }
    assert(all_hex(body)) by {
        assert forall|k: int| 0 <= k < body.len() implies (#[trigger] hex_digit_value(
            body[k],
        )) is Some by {
            assert(body[k] == address@[k + start]);
        }
    }
    proof {
        reveal_strlit("0x");
    }
    let digits = address.substring_char(start, n);
    Ok(String::from_str("0x").concat(digits))
}

/// Whether the URL parser accepts a text as an absolute URL.
pub uninterp spec fn is_parsable_url(s: Seq<char>) -> bool;

/// Relies on `reqwest::Url::parse` (the `url` crate's parser): `Ok` exactly
/// when it accepts the text, the parser's own message otherwise.
#[verifier::external_body]
fn parse_url(s: &str) -> (r: Result<(), String>)
    ensures
        (r is Ok) == is_parsable_url(s@),
{
    reqwest::Url::parse(s).map(|_| ()).map_err(|e| e.to_string())
}

/// Checks the inputs of an EVM balance query: the endpoint first, then the
/// account. On success, the account in the form an RPC call takes.
pub fn prepare_evm_query(address: &str, rpc_url: &str) -> (r: Result<String, FetchError>)
    ensures
        !is_parsable_url(rpc_url@) ==> r matches Err(FetchError::InvalidUrl(_)),
        is_parsable_url(rpc_url@) && !is_evm_address(address@) ==> r matches Err(
            FetchError::InvalidAddress(_),
        ),
        is_parsable_url(rpc_url@) && is_evm_address(address@) ==> (r matches Ok(p) && p@ == "0x"@
            + strip_hex_prefix(address@)),
{
    match parse_url(rpc_url) {
        Err(e) => Err(FetchError::InvalidUrl(e)),
        Ok(()) => evm_address_param(address),
    }
}

/// The JSON-RPC request text that asks for the latest balance of an account.
pub open spec fn balance_request_spec(account: Seq<char>) -> Seq<char> {
    "{\"jsonrpc\":\"2.0\",\"id\":1,\"method\":\"eth_getBalance\",\"params\":[\""@ + account
        + "\",\"latest\"]}"@
}

/// The JSON-RPC request text that asks for the latest balance of an account
/// (an address as `prepare_evm_query` returns it, which needs no escaping).
pub fn balance_request(account: &str) -> (r: String)
    ensures
        r@ == balance_request_spec(account@),
{
    String::from_str(
        "{\"jsonrpc\":\"2.0\",\"id\":1,\"method\":\"eth_getBalance\",\"params\":[\"",
    ).concat(account).concat("\",\"latest\"]}")
}

/// The balance an RPC endpoint reported as a quantity ("0x" and hexadecimal
/// digits): its value, `Overflow` when that does not fit in 64 bits, and
/// `Parse` when the text is no quantity.
pub fn parse_quantity(text: &str) -> (r: Result<u64, FetchError>)
    ensures
        is_quantity(text@) && quantity_value(text@) <= u64::MAX ==> r == Ok::<u64, FetchError>(
            quantity_value(text@) as u64,
        ),
        is_quantity(text@) && quantity_value(text@) > u64::MAX ==> r == Err::<u64, FetchError>(
            FetchError::Overflow,
        ),
        !is_quantity(text@) ==> r matches Err(FetchError::Parse(_)),
{
    let n = text.unicode_len();
    if n <= 2 || !hex_prefixed(text) {
        return Err(FetchError::Parse(String::from_str("expected 0x and hex digits")));
    }
    let mut acc: u64 = 0;
    let mut big = false;
    let mut i: usize = 2;
    while i < n
        invariant
            n == text@.len(),
            2 <= i <= n,
            forall|k: int| 2 <= k < i ==> (#[trigger] hex_digit_value(text@[k])) is Some,
            !big ==> acc as nat == hex_value(text@.subrange(2, i as int)),
            big ==> hex_value(text@.subrange(2, i as int)) > u64::MAX,
        decreases n - i,
    {
        let c = text.get_char(i);
        let d = match hex_digit(c) {
            Some(d) => d,
            None => {
                assert(!all_hex(text@.subrange(2, n as int))) by {
                    assert(text@.subrange(2, n as int)[i - 2] == text@[i as int]);
                }
                return Err(FetchError::Parse(String::from_str("expected 0x and hex digits")));
            },
        };
        let ghost prev = hex_value(text@.subrange(2, i as int));
        assert(text@.subrange(2, i + 1).drop_last() =~= text@.subrange(2, i as int));
        assert(hex_value(text@.subrange(2, i + 1)) == prev * 16 + d);
        if big {
            assert(prev * 16 + d > u64::MAX) by (nonlinear_arith)
                requires
                    prev > u64::MAX,
            {
            }
        } else if acc > (u64::MAX - d as u64) / 16 {
            assert(prev * 16 + d > u64::MAX) by (nonlinear_arith)
                requires
                    prev == acc,
                    acc > (u64::MAX - d) / 16,
                    d < 16,
            {
            }
            big = true;
        } else {
            assert(acc * 16 + d <= u64::MAX) by (nonlinear_arith)
                requires
                    acc <= (u64::MAX - d) / 16,
                    d < 16,
            {
            }
            acc = acc * 16 + d as u64;
        }
        i = i + 1;
    }
    assert(all_hex(text@.subrange(2, n as int))) by {
        assert forall|k: int| 0 <= k < n - 2 implies (#[trigger] hex_digit_value(
            text@.subrange(2, n as int)[k],
        )) is Some by {
            assert(text@.subrange(2, n as int)[k] == text@[k + 2]);
        }
    }
    if big {
        Err(FetchError::Overflow)
    } else {
        Ok(acc)
    }
}

} // verus!
