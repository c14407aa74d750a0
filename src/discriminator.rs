//! The selector at the front of an account's bytes.

use vstd::prelude::*;

verus! {

/// Width of a discriminator in bytes.
pub const DISCRIMINATOR_LEN: usize = 8;

/// The first eight bytes of `data`, or `None` where it is shorter.
pub fn extract_discriminator(data: &[u8]) -> (r: Option<[u8; 8]>)
    ensures
        match r {
            Some(d) => data@.len() >= 8 && d@ == data@.subrange(0, 8),
            None => data@.len() < 8,
        },
{
    if data.len() < DISCRIMINATOR_LEN {
        return None;
    }
    let d: [u8; 8] = [data[0], data[1], data[2], data[3], data[4], data[5], data[6], data[7]];
    assert(d@ =~= data@.subrange(0, 8));
    Some(d)
}

/// Whether two discriminators hold the same bytes.
pub fn same_discriminator(a: &[u8; 8], b: &[u8; 8]) -> (r: bool)
    ensures
        r == (a@ == b@),
{
    let mut i: usize = 0;
    while i < DISCRIMINATOR_LEN
        invariant
            i <= 8,
            a@.len() == 8,
            b@.len() == 8,
            a@.subrange(0, i as int) == b@.subrange(0, i as int),
        decreases 8 - i,
    {
        if a[i] != b[i] {
            return false;
        }
        assert(a@.subrange(0, i + 1) =~= a@.subrange(0, i as int).push(a@[i as int]));
        assert(b@.subrange(0, i + 1) =~= b@.subrange(0, i as int).push(b@[i as int]));
        i = i + 1;
    }
    assert(a@ =~= a@.subrange(0, 8));
    assert(b@ =~= b@.subrange(0, 8));
    true
}

} // verus!
