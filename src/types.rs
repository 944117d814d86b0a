use vstd::prelude::*;

verus! {

/// An account or contract address, identified by a number that the host
/// assigns.
#[derive(Clone, Copy, Debug, PartialEq, Eq, Hash, Structural)]
pub struct Address(pub u64);

/// A named permission group, identified by the number of its symbol.
#[derive(Clone, Copy, Debug, PartialEq, Eq, Hash, Structural)]
pub struct Role(pub u64);

/// What the host tells the library about the call in progress: the current
/// ledger sequence number and the addresses that authorized the call.
pub struct CallContext {
    pub ledger: u32,
    pub signers: Vec<Address>,
}

impl CallContext {
    pub open spec fn authorized(&self, a: Address) -> bool {
        self.signers@.contains(a)
    }

    /// Whether `a` authorized the current call.
    pub fn is_authorized(&self, a: Address) -> (r: bool)
        ensures
            r == self.authorized(a),
    {
        let mut i: usize = 0;
        while i < self.signers.len()
            invariant
                i <= self.signers@.len(),
                forall|j: int| 0 <= j < i ==> self.signers@[j] != a,
            decreases self.signers@.len() - i,
        {
            if self.signers[i] == a {
                return true;
            }
            i = i + 1;
        }
        false
    }
}

/// One 128-bit key for a pair of 64-bit identifiers.
pub open spec fn pair_key(hi: u64, lo: u64) -> u128 {
    ((hi as u128) << 64u128) | (lo as u128)
}

pub fn make_pair_key(hi: u64, lo: u64) -> (r: u128)
    ensures
        r == pair_key(hi, lo),
{
    ((hi as u128) << 64u128) | (lo as u128)
}

/// Distinct pairs have distinct keys.
pub proof fn lemma_pair_key_injective(a: u64, b: u64, c: u64, d: u64)
    ensures
        pair_key(a, b) == pair_key(c, d) ==> a == c && b == d,
{
    let x = a as u128;
    let y = b as u128;
    let z = c as u128;
    let w = d as u128;
    assert(x < 0x1_0000_0000_0000_0000u128 && y < 0x1_0000_0000_0000_0000u128
        && z < 0x1_0000_0000_0000_0000u128 && w < 0x1_0000_0000_0000_0000u128);
    assert(x < 0x1_0000_0000_0000_0000u128 && y < 0x1_0000_0000_0000_0000u128
        && z < 0x1_0000_0000_0000_0000u128 && w < 0x1_0000_0000_0000_0000u128
        && ((x << 64u128) | y) == ((z << 64u128) | w) ==> x == z && y == w) by (bit_vector);
}

} // verus!
