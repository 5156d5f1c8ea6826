use vstd::prelude::*;
use crate::text::{is_bitcoin_family, str_eq};

verus! {

/// Smallest units in one whole bitcoin.
pub const SATOSHI_PER_BTC: u128 = 100_000_000;

/// Smallest units in one whole coin of an EVM-family chain.
pub const WEI_PER_ETH: u128 = 1_000_000_000_000_000_000;

/// Four decimal places: the number of ten-thousandths in one whole unit.
pub const FRACTION_SCALE: u128 = 10_000;

/// The ASCII digit of a value below ten.
pub open spec fn digit_char(d: nat) -> char {
    if d == 0 { '0' }
    else if d == 1 { '1' }
    else if d == 2 { '2' }
    else if d == 3 { '3' }
    else if d == 4 { '4' }
    else if d == 5 { '5' }
    else if d == 6 { '6' }
    else if d == 7 { '7' }
    else if d == 8 { '8' }
    else { '9' }
}

/// The decimal notation of `n`, without leading zeros ("0" for zero).
pub open spec fn decimal(n: nat) -> Seq<char>
    decreases n,
{
    if n < 10 {
        seq![digit_char(n)]
    } else {
        decimal(n / 10).push(digit_char(n % 10))
    }
}

/// The four digits of `f` (below ten thousand), zeros on the left included.
pub open spec fn four_digits(f: nat) -> Seq<char> {
    seq![
        digit_char(f / 1000),
        digit_char((f / 100) % 10),
        digit_char((f / 10) % 10),
        digit_char(f % 10),
    ]
}

/// Smallest units per whole unit for a chain label.
pub open spec fn conversion_factor_spec(chain: Seq<char>) -> nat {
    if is_bitcoin_family(chain) { SATOSHI_PER_BTC as nat } else { WEI_PER_ETH as nat }
}

/// The unit symbol shown for a chain label: every label that is not
/// bitcoin-family is shown as ETH.
pub open spec fn symbol_spec(chain: Seq<char>) -> Seq<char> {
    if is_bitcoin_family(chain) { seq!['B', 'T', 'C'] } else { seq!['E', 'T', 'H'] }
}

/// `n / d` rounded to the nearest integer, ties to the even neighbour.
pub open spec fn div_round_even(n: nat, d: nat) -> nat
    recommends d > 0,
{
    let q = n / d;
    let r = n % d;
    if 2 * r > d || (2 * r == d && q % 2 == 1) { q + 1 } else { q }
}

/// A balance in ten-thousandths of a whole unit, rounded to the nearest.
pub open spec fn ten_thousandths(balance: nat, chain: Seq<char>) -> nat {
    div_round_even(balance * FRACTION_SCALE as nat, conversion_factor_spec(chain))
}

/// The display form of a balance: whole units, a point, four decimals,
/// a space and the unit symbol.
pub open spec fn format_spec(balance: nat, chain: Seq<char>) -> Seq<char> {
    let q = ten_thousandths(balance, chain);
    decimal(q / 10_000) + seq!['.'] + four_digits(q % 10_000) + seq![' '] + symbol_spec(chain)
}

/// Smallest units per whole unit: 10^8 for "BTC" and "Bitcoin", 10^18 for
/// every other label.
pub fn get_conversion_factor(chain: &str) -> (r: u128)
    ensures
        r as nat == conversion_factor_spec(chain@),
{
    if bitcoin_family(chain) {
        SATOSHI_PER_BTC
    } else {
        WEI_PER_ETH
    }
}

/// Whether a chain label is "BTC" or "Bitcoin".
pub fn bitcoin_family(chain: &str) -> (r: bool)
    ensures
        r == is_bitcoin_family(chain@),
{
    proof {
        reveal_strlit("BTC");
        reveal_strlit("Bitcoin");
        assert("BTC"@ =~= seq!['B', 'T', 'C']);
        assert("Bitcoin"@ =~= seq!['B', 'i', 't', 'c', 'o', 'i', 'n']);
    }
    str_eq(chain, "BTC") || str_eq(chain, "Bitcoin")
}

/// The one-character string of a digit.
fn digit_str(d: u8) -> (r: &'static str)
    requires
        d < 10,
    ensures
        r@ == seq![digit_char(d as nat)],
{
    proof {
        reveal_strlit("0");
        reveal_strlit("1");
        reveal_strlit("2");
        reveal_strlit("3");
        reveal_strlit("4");
        reveal_strlit("5");
        reveal_strlit("6");
        reveal_strlit("7");
        reveal_strlit("8");
        reveal_strlit("9");
    }
    let r = if d == 0 { "0" }
    else if d == 1 { "1" }
    else if d == 2 { "2" }
    else if d == 3 { "3" }
    else if d == 4 { "4" }
    else if d == 5 { "5" }
    else if d == 6 { "6" }
    else if d == 7 { "7" }
    else if d == 8 { "8" }
    else { "9" };
    assert(r@ =~= seq![digit_char(d as nat)]);
    r
}

/// The decimal notation of a number.
pub fn decimal_string(n: u128) -> (r: String)
    ensures
        r@ == decimal(n as nat),
    decreases n,
{
    if n < 10 {
        String::from_str(digit_str(n as u8))
    } else {
        let mut s = decimal_string(n / 10);
        s.append(digit_str((n % 10) as u8));
        proof {
            assert(s@ =~= decimal(n as nat));
        }
        s
    }
}

/// `balance` in whole units of `chain`, rounded to four decimal places (ties
/// to even), followed by a space and "BTC" for "BTC" and "Bitcoin" or "ETH"
/// for every other label. The arithmetic is exact decimal arithmetic.
pub fn format_crypto_balance(balance: u64, chain: &str) -> (r: String)
    ensures
        r@ == format_spec(balance as nat, chain@),
{
    let factor = get_conversion_factor(chain);
    let scaled: u128 = (balance as u128) * FRACTION_SCALE;
    let q0: u128 = scaled / factor;
    let rem: u128 = scaled % factor;
    let q: u128 = if 2 * rem > factor || (2 * rem == factor && q0 % 2 == 1) {
        q0 + 1
    } else {
        q0
    };
    assert(q as nat == ten_thousandths(balance as nat, chain@));
    let whole = q / 10_000;
    let frac = q % 10_000;
    let mut s = decimal_string(whole);
    s.append(".");
    s.append(digit_str((frac / 1000) as u8));
    s.append(digit_str(((frac / 100) % 10) as u8));
    s.append(digit_str(((frac / 10) % 10) as u8));
    s.append(digit_str((frac % 10) as u8));
    s.append(" ");
    if bitcoin_family(chain) {
        s.append("BTC");
    } else {
        s.append("ETH");
    }
    proof {
        reveal_strlit(".");
        reveal_strlit(" ");
        reveal_strlit("BTC");
        reveal_strlit("ETH");
        assert(s@ =~= format_spec(balance as nat, chain@));
    }
    s
}

/// A zero balance reads "0.0000" followed by the chain's symbol, whatever
/// the chain.
pub proof fn lemma_format_zero(chain: Seq<char>)
    ensures
        format_spec(0, chain) == seq!['0', '.', '0', '0', '0', '0', ' '] + symbol_spec(chain),
{
    assert(ten_thousandths(0, chain) == 0) by (nonlinear_arith)
        requires
            conversion_factor_spec(chain) > 0,
    {
    }
    assert(decimal(0) == seq!['0']);
    assert(format_spec(0, chain) =~= seq!['0', '.', '0', '0', '0', '0', ' '] + symbol_spec(chain));
}

} // verus!
