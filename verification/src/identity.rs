use vstd::prelude::*;

verus! {

/// An account identity: the 32-byte public-key-sized handle under which the
/// ledger knows an account. Compared only by its bytes.
#[derive(Clone, Copy, Debug)]
pub struct Identity {
    pub bytes: [u8; 32],
}

impl View for Identity {
    type V = Seq<u8>;

    open spec fn view(&self) -> Seq<u8> {
        self.bytes@
    }
}

impl Identity {
    /// Builds an identity from its canonical 32-byte encoding.
    pub fn new(bytes: [u8; 32]) -> (r: Identity)
        ensures
            r@ == bytes@,
    {
        Identity { bytes }
    }

    /// Byte-for-byte equality of two identities.
    pub fn matches(&self, other: &Identity) -> (r: bool)
        ensures
            r == (self@ == other@),
    {
        let mut i: usize = 0;
        while i < 32
            invariant
                i <= 32,
                forall|j: int| 0 <= j < i ==> self.bytes@[j] == other.bytes@[j],
            decreases 32 - i,
        {
            if self.bytes[i] != other.bytes[i] {
                assert(self@[i as int] != other@[i as int]);
                return false;
            }
            i = i + 1;
        }
        proof {
            assert(self.bytes@ =~= other.bytes@);
        }
        true
    }
}

/// The canonical bytes of the fixed developer wallet identity, pinned at
/// build time. Every call must route the developer fee to this identity.
pub open spec fn dev_wallet_bytes() -> Seq<u8> {
    seq![
        0xd1u8, 0x5c, 0x0a, 0x97, 0x34, 0x6e, 0x81, 0xb2,
        0x49, 0xe3, 0x7f, 0x08, 0xc5, 0x2d, 0x9b, 0x66,
        0x10, 0xaf, 0x58, 0xe4, 0x3b, 0x72, 0x8d, 0xc9,
        0x05, 0x6a, 0xf1, 0x1e, 0xb7, 0x40, 0x93, 0x2c,
    ]
}

/// The fixed developer wallet identity, the one account allowed to receive
/// the developer fee.
pub fn get_dev_wallet() -> (r: Identity)
    ensures
        r@ == dev_wallet_bytes(),
{
    let bytes: [u8; 32] = [
        0xd1u8, 0x5c, 0x0a, 0x97, 0x34, 0x6e, 0x81, 0xb2,
        0x49, 0xe3, 0x7f, 0x08, 0xc5, 0x2d, 0x9b, 0x66,
        0x10, 0xaf, 0x58, 0xe4, 0x3b, 0x72, 0x8d, 0xc9,
        0x05, 0x6a, 0xf1, 0x1e, 0xb7, 0x40, 0x93, 0x2c,
    ];
    proof {
        assert(bytes@ =~= dev_wallet_bytes());
    }
    Identity { bytes }
}

} // verus!
