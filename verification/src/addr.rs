//! Helpers for 32-byte account identities.
//!
//! Accounts, mints and program addresses are carried as plain 32-byte values;
//! the protocol's rules only ever compare them for equality or against the
//! zero address.

use vstd::prelude::*;

verus! {

/// True exactly when every byte of the identity is zero. The zero address is
/// never a valid transfer recipient.
pub open spec fn is_zero_addr(a: [u8; 32]) -> bool {
    forall|i: int| 0 <= i < 32 ==> a@[i] == 0
}

/// Byte-wise equality of two 32-byte account identities.
pub fn addr_eq(a: &[u8; 32], b: &[u8; 32]) -> (r: bool)
    ensures
        r <==> a@ == b@,
{
    let mut i: usize = 0;
    while i < 32
        invariant
            i <= 32,
            forall|j: int| 0 <= j < i ==> a@[j] == b@[j],
        decreases 32 - i,
    {
        if a[i] != b[i] {
            return false;
        }
        i = i + 1;
    }
    proof {
        assert(a@ =~= b@);
    }
    true
}

/// Tests an account identity against the zero address.
pub fn addr_is_zero(a: &[u8; 32]) -> (r: bool)
    ensures
        r <==> is_zero_addr(*a),
{
    let mut i: usize = 0;
    while i < 32
        invariant
            i <= 32,
            forall|j: int| 0 <= j < i ==> a@[j] == 0,
        decreases 32 - i,
    {
        if a[i] != 0 {
            return false;
        }
        i = i + 1;
    }
    true
}

} // verus!
