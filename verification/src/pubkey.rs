//! 32-byte identifiers for accounts, mints, and programs.

use vstd::prelude::*;

verus! {

broadcast use vstd::array::group_array_axioms;

/// The length in bytes of every identifier.
pub const PUBKEY_BYTES: usize = 32;

/// A 32-byte identifier naming an account, asset, or program.
#[derive(Clone, Copy, Debug)]
pub struct Pubkey {
    pub bytes: [u8; 32],
}

impl View for Pubkey {
    type V = Seq<u8>;

    open spec fn view(&self) -> Seq<u8> {
        self.bytes@
    }
}

impl Pubkey {
    /// Wraps a 32-byte array as an identifier.
    pub fn new_from_array(bytes: [u8; 32]) -> (r: Pubkey)
        ensures
            r@ == bytes@,
    {
        Pubkey { bytes }
    }

    /// Copies a 32-byte slice into a fresh identifier.
    pub fn from_slice(bytes: &[u8]) -> (r: Pubkey)
        requires
            bytes@.len() == 32,
        ensures
            r@ == bytes@,
    {
        let mut out: [u8; 32] = [0u8; 32];
        let mut i: usize = 0;
        while i < 32
            invariant
                bytes@.len() == 32,
                0 <= i <= 32,
                out@.len() == 32,
                forall|k: int| 0 <= k < i ==> out@[k] == bytes@[k],
            decreases 32 - i,
        {
            out[i] = bytes[i];
            i += 1;
        }
        proof {
            assert(out@ =~= bytes@);
        }
        Pubkey { bytes: out }
    }
}

impl PartialEq for Pubkey {
    fn eq(&self, other: &Pubkey) -> (r: bool) {
        let mut i: usize = 0;
        while i < 32
            invariant
                0 <= i <= 32,
                forall|k: int| 0 <= k < i ==> self.bytes@[k] == other.bytes@[k],
            decreases 32 - i,
        {
            if self.bytes[i] != other.bytes[i] {
                return false;
            }
            i += 1;
        }
        proof {
            assert(self.bytes@ =~= other.bytes@);
        }
        true
    }
}

impl vstd::std_specs::cmp::PartialEqSpecImpl for Pubkey {
    open spec fn obeys_eq_spec() -> bool {
        true
    }

    open spec fn eq_spec(&self, other: &Pubkey) -> bool {
        self.bytes@ == other.bytes@
    }
}

impl Default for Pubkey {
    /// The all-zero identifier.
    fn default() -> (r: Pubkey)
        ensures
            r@ == Seq::new(32, |i: int| 0u8),
    {
        let out: [u8; 32] = [0u8; 32];
        proof {
            assert(out@ =~= Seq::new(32, |i: int| 0u8));
        }
        Pubkey { bytes: out }
    }
}

} // verus!
