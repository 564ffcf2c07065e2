use vstd::prelude::*;
use vstd::bytes::*;

use crate::error::EscrowError;

verus! {

/// Size in bytes of a persisted escrow record:
/// `seed:8 | maker:32 | mint_a:32 | mint_b:32 | receive:8 | bump:1`.
pub const ESCROW_LEN: usize = 113;

/// The persisted state of one open escrow offer.
#[derive(Clone, Copy, Debug, PartialEq, Eq)]
pub struct Escrow {
    /// Maker-chosen value that, with the maker's identity, makes the
    /// record's derived address unique and reproducible.
    pub seed: u64,
    /// Identity of the offer's creator; sole authority for Refund.
    pub maker: [u8; 32],
    /// Identity of the locked asset's mint.
    pub mint_a: [u8; 32],
    /// Identity of the requested asset's mint.
    pub mint_b: [u8; 32],
    /// Amount of asset B required to fulfill the offer.
    pub receive: u64,
    /// Byte completing the address-derivation proof for this record.
    pub bump: u8,
}

impl Escrow {
    /// The exact persisted byte image of this record.
    pub open spec fn spec_bytes(self) -> Seq<u8> {
        spec_u64_to_le_bytes(self.seed) + self.maker@ + self.mint_a@ + self.mint_b@
            + spec_u64_to_le_bytes(self.receive) + seq![self.bump]
    }

    /// Holds when this record's fields are exactly those encoded in the
    /// 113-byte image `s`.
    pub open spec fn decodes(self, s: Seq<u8>) -> bool {
        &&& self.seed == spec_u64_from_le_bytes(s.subrange(0, 8))
        &&& self.maker@ == s.subrange(8, 40)
        &&& self.mint_a@ == s.subrange(40, 72)
        &&& self.mint_b@ == s.subrange(72, 104)
        &&& self.receive == spec_u64_from_le_bytes(s.subrange(104, 112))
        &&& self.bump == s[112]
    }

    /// Overwrites every field, as Make does when it initializes a
    /// freshly created record account.
    pub fn set_inner(
        &mut self,
        seed: u64,
        maker: [u8; 32],
        mint_a: [u8; 32],
        mint_b: [u8; 32],
        receive: u64,
        bump: u8,
    )
        ensures
            *final(self) == (Escrow { seed, maker, mint_a, mint_b, receive, bump }),
    {
        self.seed = seed;
        self.maker = maker;
        self.mint_a = mint_a;
        self.mint_b = mint_b;
        self.receive = receive;
        self.bump = bump;
    }

    /// Serializes the record into its fixed 113-byte layout.
    pub fn to_bytes(&self) -> (r: Vec<u8>)
        ensures
            r@ == self.spec_bytes(),
            r@.len() == ESCROW_LEN,
    {
        let mut r = u64_to_le_bytes(self.seed);
        push_key(&mut r, &self.maker);
        push_key(&mut r, &self.mint_a);
        push_key(&mut r, &self.mint_b);
        let mut tail = u64_to_le_bytes(self.receive);
        let ghost before_tail = r@;
        let mut i: usize = 0;
        while i < 8
            invariant
                tail@ == spec_u64_to_le_bytes(self.receive),
                tail@.len() == 8,
                i <= 8,
                r@ == before_tail + tail@.subrange(0, i as int),
            decreases 8 - i,
        {
            let b = *vstd::slice::slice_index_get(tail.as_slice(), i);
            r.push(b);
            i = i + 1;
            proof {
                assert(tail@.subrange(0, i as int)
                    == tail@.subrange(0, i - 1).push(tail@[i - 1]));
            }
        }
        proof {
            assert(tail@.subrange(0, 8) == tail@);
            vstd::bytes::lemma_auto_spec_u64_to_from_le_bytes();
        }
        r.push(self.bump);
        proof {
            assert(r@ =~= self.spec_bytes());
        }
        r
    }

    /// Decodes a persisted record; rejects any image whose size is not
    /// exactly the fixed record layout.
    pub fn try_from_bytes(s: &[u8]) -> (r: Result<Escrow, EscrowError>)
        ensures
            s@.len() == ESCROW_LEN ==> (r matches Ok(e) && e.decodes(s@)),
            s@.len() != ESCROW_LEN ==> r == Err::<Escrow, EscrowError>(
                EscrowError::InvalidAccountData,
            ),
    {
        if s.len() != ESCROW_LEN {
            return Err(EscrowError::InvalidAccountData);
        }
        let seed = u64_from_le_bytes(vstd::slice::slice_subrange(s, 0, 8));
        let maker = read_key(s, 8);
        let mint_a = read_key(s, 40);
        let mint_b = read_key(s, 72);
        let receive = u64_from_le_bytes(vstd::slice::slice_subrange(s, 104, 112));
        let bump = *vstd::slice::slice_index_get(s, 112);
        Ok(Escrow { seed, maker, mint_a, mint_b, receive, bump })
    }
}

/// Round trip: the only record that decodes from a serialized record's
/// byte image is that record itself.
pub proof fn lemma_record_round_trip(e: Escrow, d: Escrow)
    requires
        d.decodes(e.spec_bytes()),
    ensures
        d == e,
{
    lemma_auto_spec_u64_to_from_le_bytes();
    let s = e.spec_bytes();
    assert(s.subrange(0, 8) =~= spec_u64_to_le_bytes(e.seed));
    assert(s.subrange(8, 40) =~= e.maker@);
    assert(s.subrange(40, 72) =~= e.mint_a@);
    assert(s.subrange(72, 104) =~= e.mint_b@);
    assert(s.subrange(104, 112) =~= spec_u64_to_le_bytes(e.receive));
    assert(s[112] == e.bump);
    assert(d.maker =~= e.maker);
    assert(d.mint_a =~= e.mint_a);
    assert(d.mint_b =~= e.mint_b);
}

/// A byte image decodes to at most one record: `decodes` pins every
/// field to a function of the image.
pub proof fn lemma_decodes_unique(s: Seq<u8>, r1: Escrow, r2: Escrow)
    requires
        r1.decodes(s),
        r2.decodes(s),
    ensures
        r1 == r2,
{
    assert(r1.maker =~= r2.maker);
    assert(r1.mint_a =~= r2.mint_a);
    assert(r1.mint_b =~= r2.mint_b);
}

/// Appends the 32 bytes of `k` to `v`.
pub fn push_key(v: &mut Vec<u8>, k: &[u8; 32])
    ensures
        final(v)@ == old(v)@ + k@,
{
    let mut i: usize = 0;
    while i < 32
        invariant
            i <= 32,
            v@ == old(v)@ + k@.subrange(0, i as int),
        decreases 32 - i,
    {
        let b = *vstd::array::array_index_get(k, i);
        v.push(b);
        i = i + 1;
        proof {
            assert(k@.subrange(0, i as int) == k@.subrange(0, i - 1).push(k@[i - 1]));
        }
    }
    proof {
        assert(k@.subrange(0, 32) =~= k@);
    }
}

/// Copies the 32 bytes of `s` starting at `off` into a fresh key.
pub fn read_key(s: &[u8], off: usize) -> (r: [u8; 32])
    requires
        off + 32 <= s@.len(),
    ensures
        r@ == s@.subrange(off as int, off + 32),
{
    let mut r: [u8; 32] = [0u8; 32];
    let n = s.len();
    let mut i: usize = 0;
    while i < 32
        invariant
            i <= 32,
            off + 32 <= s@.len(),
            s@.len() == n,
            r@.len() == 32,
            forall|j: int| 0 <= j < i ==> r@[j] == s@[off + j],
        decreases 32 - i,
    {
        r[i] = *vstd::slice::slice_index_get(s, off + i);
        i = i + 1;
    }
    proof {
        assert(r@ =~= s@.subrange(off as int, off + 32));
    }
    r
}

/// Compares two 32-byte identities.
pub fn key_eq(a: &[u8; 32], b: &[u8; 32]) -> (r: bool)
    ensures
        r == (a@ == b@),
        r == (*a == *b),
{
    let mut i: usize = 0;
    while i < 32
        invariant
            i <= 32,
            forall|j: int| 0 <= j < i ==> a@[j] == b@[j],
        decreases 32 - i,
    {
        let x = *vstd::array::array_index_get(a, i);
        let y = *vstd::array::array_index_get(b, i);
        if x != y {
            proof {
                assert(a@[i as int] != b@[i as int]);
            }
            return false;
        }
        i = i + 1;
    }
    proof {
        assert(a@ =~= b@);
        assert(*a =~= *b);
    }
    true
}

} // verus!
