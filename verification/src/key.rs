use vstd::prelude::*;
use vstd::std_specs::cmp::PartialEqSpecImpl;

verus! {

/// A 32-byte key that names an identity, a wallet or a record. Keys are opaque:
/// the only things ever asked of one are whether it equals another and whether
/// it is the all-zero key, which stands for "no key set".
#[derive(Clone, Copy, Debug)]
pub struct Key {
    pub bytes: [u8; 32],
}

impl View for Key {
    type V = Seq<u8>;

    open spec fn view(&self) -> Seq<u8> {
        self.bytes@
    }
}

impl Key {
    /// Whether every byte of the key is zero.
    pub open spec fn is_zero(self) -> bool {
        forall|i: int| 0 <= i < 32 ==> self.bytes[i] == 0u8
    }

    /// The key of 32 zero bytes.
    pub open spec fn zero_key() -> Key {
        Key { bytes: vstd::array::spec_array_fill_for_copy_type::<u8, 32>(0u8) }
    }

    /// The all-zero key.
    pub fn zero() -> (k: Key)
        ensures
            k.is_zero(),
            k == Key::zero_key(),
    {
        Key { bytes: [0u8; 32] }
    }

    /// A key from its 32 bytes.
    pub fn new(bytes: [u8; 32]) -> (k: Key)
        ensures
            k.bytes == bytes,
    {
        Key { bytes }
    }

    /// Tests for the all-zero key.
    pub fn is_default(&self) -> (r: bool)
        ensures
            r == self.is_zero(),
            r == (*self == Key::zero_key()),
    {
        let zero = Key::zero();
        proof {
            lemma_zero_is_unique(*self);
        }
        *self == zero
    }
}

/// A key is the zero key exactly when all of its bytes are zero.
pub proof fn lemma_zero_is_unique(k: Key)
    ensures
        k.is_zero() <==> k == Key::zero_key(),
{
    let z = Key::zero_key();
    assert(z.is_zero());
    if k.is_zero() {
        assert(k.bytes =~= z.bytes);
    }
}

impl PartialEq for Key {
    fn eq(&self, other: &Key) -> (r: bool) {
        let mut i: usize = 0;
        while i < 32
            invariant
                i <= 32,
                forall|j: int| 0 <= j < i ==> self.bytes[j] == other.bytes[j],
            decreases 32 - i,
        {
            if self.bytes[i] != other.bytes[i] {
                return false;
            }
            i += 1;
        }
        assert(self.bytes =~= other.bytes);
        true
    }
}

impl Eq for Key {

}

impl PartialEqSpecImpl for Key {
    open spec fn obeys_eq_spec() -> bool {
        true
    }

    open spec fn eq_spec(&self, other: &Key) -> bool {
        *self == *other
    }
}

} // verus!
