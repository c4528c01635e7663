use vstd::prelude::*;

verus! {

broadcast use vstd::array::group_array_axioms;

/// The 32 bytes that name an account.
pub type Address = [u8; 32];

/// Whether two addresses are the same, compared byte by byte.
pub fn same_address(a: &Address, b: &Address) -> (r: bool)
    ensures
        r == (*a == *b),
{
    let mut i: usize = 0;
    while i < 32
        invariant
            0 <= i <= 32,
            forall|j: int| 0 <= j < i ==> a[j] == b[j],
        decreases 32 - i,
    {
        if a[i] != b[i] {
            return false;
        }
        i = i + 1;
    }
    assert(*a =~= *b);
    true
}

} // verus!
