use vstd::prelude::*;

verus! {

/// Number of bytes in an account address.
pub const PUBKEY_BYTES: usize = 32;

/// An account address: 32 opaque bytes.
#[derive(Clone, Copy, Debug)]
pub struct Pubkey {
    pub bytes: [u8; 32],
}

impl View for Pubkey {
    type V = Seq<u8>;

    open spec fn view(&self) -> Seq<u8> {
        self.bytes@
    }
}

impl Pubkey {
    /// The address made of the given bytes.
    pub fn new_from_array(bytes: [u8; 32]) -> (k: Pubkey)
        ensures
            k@ == bytes@,
    {
        Pubkey { bytes }
    }

    /// The bytes of the all-zero address.
    pub open spec fn spec_zero() -> Seq<u8> {
        Seq::new(32, |i: int| 0u8)
    }

    /// The all-zero address, which is the value of an address field in a
    /// freshly allocated account.
    pub fn zero() -> (k: Pubkey)
        ensures
            k@ == Self::spec_zero(),
    {
        let k = Pubkey { bytes: [0u8; 32] };
        assert(k@ =~= Self::spec_zero());
        k
    }

    /// The bytes of the system program's address (all zero).
    pub open spec fn spec_system_program_id() -> Seq<u8> {
        Self::spec_zero()
    }

    /// The bytes of the token program's address
    /// (TokenkegQfeZyiNwAJbNbGKPFXCWuBvf9Ss623VQ5DA).
    pub open spec fn spec_token_program_id() -> Seq<u8> {
        seq![6u8, 221u8, 246u8, 225u8, 215u8, 101u8, 161u8, 147u8, 217u8, 203u8, 225u8, 70u8, 206u8, 235u8, 121u8, 172u8, 28u8, 180u8, 133u8, 237u8, 95u8, 91u8, 55u8, 145u8, 58u8, 140u8, 245u8, 133u8, 126u8, 255u8, 0u8, 169u8]
    }

    /// The system program's address.
    pub fn system_program_id() -> (k: Pubkey)
        ensures
            k@ == Self::spec_system_program_id(),
    {
        Self::zero()
    }

    /// The token program's address.
    pub fn token_program_id() -> (k: Pubkey)
        ensures
            k@ == Self::spec_token_program_id(),
    {
        let k = Pubkey { bytes: [6u8, 221u8, 246u8, 225u8, 215u8, 101u8, 161u8, 147u8, 217u8, 203u8, 225u8, 70u8, 206u8, 235u8, 121u8, 172u8, 28u8, 180u8, 133u8, 237u8, 95u8, 91u8, 55u8, 145u8, 58u8, 140u8, 245u8, 133u8, 126u8, 255u8, 0u8, 169u8] };
        assert(k@ =~= Self::spec_token_program_id());
        k
    }

    /// Whether two addresses hold the same bytes.
    pub fn key_eq(&self, other: &Pubkey) -> (r: bool)
        ensures
            r == (self@ == other@),
    {
        let mut i: usize = 0;
        while i < 32
            invariant
                0 <= i <= 32,
                self@.len() == 32,
                other@.len() == 32,
                forall|j: int| 0 <= j < i ==> self@[j] == other@[j],
            decreases 32 - i,
        {
            if self.bytes[i] != other.bytes[i] {
                return false;
            }
            i = i + 1;
        }
        assert(self@ =~= other@);
        true
    }

    /// The address's bytes as a seed.
    pub fn to_seed(&self) -> (v: Vec<u8>)
        ensures
            v@ == self@,
    {
        let mut v: Vec<u8> = Vec::new();
        let mut i: usize = 0;
        while i < 32
            invariant
                0 <= i <= 32,
                self@.len() == 32,
                v@ == self@.take(i as int),
            decreases 32 - i,
        {
            v.push(self.bytes[i]);
            i = i + 1;
            assert(v@ =~= self@.take(i as int));
        }
        assert(self@.take(32) =~= self@);
        v
    }
}

} // verus!
