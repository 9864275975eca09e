//! Account addresses.

use vstd::prelude::*;

verus! {

/// A 32-byte account address. The all-zero address is the default one and
/// marks a field that was never set.
#[derive(Clone, Copy, Debug, Eq, Hash)]
pub struct Pubkey {
    pub bytes: [u8; 32],
}

impl View for Pubkey {
    type V = Seq<u8>;

    open spec fn view(&self) -> Seq<u8> {
        self.bytes@
    }
}

impl PartialEq for Pubkey {
    fn eq(&self, other: &Pubkey) -> (res: bool) {
        let mut i: usize = 0;
        while i < 32
            invariant
                i <= 32,
                forall|j: int| 0 <= j < i ==> self.bytes[j] == other.bytes[j],
            decreases 32 - i,
        {
            if self.bytes[i] != other.bytes[i] {
                return false;
            }
            i += 1;
        }
        assert(self.bytes =~= other.bytes);
        true
    }
}

impl vstd::std_specs::cmp::PartialEqSpecImpl for Pubkey {
    open spec fn obeys_eq_spec() -> bool {
        true
    }

    open spec fn eq_spec(&self, other: &Pubkey) -> bool {
        *self == *other
    }
}

impl Default for Pubkey {
    fn default() -> (res: Pubkey)
        ensures
            res.is_default(),
    {
        Pubkey { bytes: [0u8; 32] }
    }
}

impl Pubkey {
    /// Whether every byte of the address is zero.
    pub open spec fn is_default(&self) -> bool {
        forall|i: int| 0 <= i < 32 ==> self.bytes[i] == 0u8
    }

    pub fn new_from_array(bytes: [u8; 32]) -> (res: Pubkey)
        ensures
            res.bytes == bytes,
    {
        Pubkey { bytes }
    }

    pub fn to_bytes(&self) -> (res: [u8; 32])
        ensures
            res == self.bytes,
    {
        self.bytes
    }

    /// The address as a byte vector, in order.
    pub fn to_vec(&self) -> (res: Vec<u8>)
        ensures
            res@ == self@,
    {
        let mut out: Vec<u8> = Vec::new();
        let mut i: usize = 0;
        while i < 32
            invariant
                i <= 32,
                out@.len() == i,
                forall|j: int| 0 <= j < i ==> out@[j] == self.bytes[j],
            decreases 32 - i,
        {
            out.push(self.bytes[i]);
            i += 1;
        }
        assert(out@ =~= self@);
        out
    }

    /// Runtime test for the default address.
    pub fn is_unset(&self) -> (res: bool)
        ensures
            res == self.is_default(),
    {
        let mut i: usize = 0;
        while i < 32
            invariant
                i <= 32,
                forall|j: int| 0 <= j < i ==> self.bytes[j] == 0u8,
            decreases 32 - i,
        {
            if self.bytes[i] != 0 {
                return false;
            }
            i += 1;
        }
        true
    }
}

/// Two addresses with the same bytes are the same address, and there is only
/// one default address.
pub proof fn lemma_pubkey_by_bytes(a: Pubkey, b: Pubkey)
    ensures
        a@ == b@ <==> a == b,
        a.is_default() && b.is_default() ==> a == b,
{
    if a@ == b@ {
        assert(a.bytes =~= b.bytes);
    }
    if a.is_default() && b.is_default() {
        assert(a.bytes =~= b.bytes);
    }
}

} // verus!
