use vstd::prelude::*;

verus! {

/// A 32-byte account address.
pub type Pubkey = [u8; 32];

/// Byte-lexicographic order on addresses: at the first byte where the two
/// differ, the first address holds the smaller one.
pub open spec fn pubkey_lt_spec(a: Seq<u8>, b: Seq<u8>) -> bool {
    exists|i: int|
        0 <= i < a.len() && i < b.len() && #[trigger] a[i] < b[i] && a.subrange(0, i) == b.subrange(
            0,
            i,
        )
}

/// Tells whether `a` sorts strictly before `b` byte by byte.
pub fn pubkey_lt(a: &Pubkey, b: &Pubkey) -> (less: bool)
    ensures
        less == pubkey_lt_spec(a@, b@),
{
    let mut i: usize = 0;
    while i < 32
        invariant
            i <= 32,
            a@.subrange(0, i as int) == b@.subrange(0, i as int),
        decreases 32 - i,
    {
        if a[i] != b[i] {
            let less: bool = a[i] < b[i];
            proof {
                if !less {
                    assert forall|k: int|
                        0 <= k < 32 && #[trigger] a@[k] < b@[k] implies a@.subrange(0, k)
                        != b@.subrange(0, k) by {
                        if k < i {
                            assert(a@.subrange(0, i as int)[k] == b@.subrange(0, i as int)[k]);
                        } else {
                            assert(a@.subrange(0, k)[i as int] != b@.subrange(0, k)[i as int]);
                        }
                    }
                }
            }
            return less;
        }
        proof {
            assert(a@.subrange(0, i + 1) =~= a@.subrange(0, i as int).push(a@[i as int]));
            assert(b@.subrange(0, i + 1) =~= b@.subrange(0, i as int).push(b@[i as int]));
        }
        i = i + 1;
    }
    proof {
        assert forall|k: int| 0 <= k < 32 implies !(#[trigger] a@[k] < b@[k]) by {
            assert(a@.subrange(0, 32)[k] == b@.subrange(0, 32)[k]);
        }
    }
    false
}

/// Tells whether two addresses hold the same bytes.
pub fn pubkey_eq(a: &Pubkey, b: &Pubkey) -> (same: bool)
    ensures
        same == (a@ == b@),
{
    let mut i: usize = 0;
    while i < 32
        invariant
            i <= 32,
            forall|k: int| 0 <= k < i ==> a@[k] == b@[k],
        decreases 32 - i,
    {
        if a[i] != b[i] {
            return false;
        }
        i = i + 1;
    }
    assert(a@ =~= b@);
    true
}

} // verus!
