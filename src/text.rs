use vstd::prelude::*;

verus! {

/// Whether a chain label is bitcoin-family: exactly "BTC" or "Bitcoin".
pub open spec fn is_bitcoin_family(chain: Seq<char>) -> bool {
    chain == seq!['B', 'T', 'C'] || chain == seq!['B', 'i', 't', 'c', 'o', 'i', 'n']
}

/// The label that selects the Bitcoin adapter, exactly and case-sensitively.
pub open spec fn is_bitcoin_label(chain: Seq<char>) -> bool {
    chain == seq!['B', 'i', 't', 'c', 'o', 'i', 'n']
}

/// Character-by-character equality of two strings.
pub fn str_eq(a: &str, b: &str) -> (r: bool)
    ensures
        r == (a@ == b@),
{
    let n = a.unicode_len();
    if n != b.unicode_len() {
        return false;
    }
    let mut i: usize = 0;
    while i < n
        invariant
            n == a@.len(),
            n == b@.len(),
            i <= n,
            forall|k: int| 0 <= k < i ==> a@[k] == b@[k],
        decreases n - i,
    {
        if a.get_char(i) != b.get_char(i) {
            return false;
        }
        i = i + 1;
    }
    assert(a@ =~= b@);
    true
}

} // verus!
