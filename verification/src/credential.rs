//! Shared validation for the fixed-capacity credential types (SSID and
//! password): valid UTF-8, no interior `NUL` byte, bounded length.

use vstd::prelude::*;
use vstd::utf8::valid_utf8;
use crate::error::WifiConfigError;
use crate::trusted::utf8_check;

verus! {

/// No byte of `s` is `NUL`.
pub open spec fn no_interior_nul(s: Seq<u8>) -> bool {
    forall|j: int| 0 <= j < s.len() ==> s[j] != 0
}

/// `s` may be stored in a credential of capacity `max`: bounded length,
/// valid UTF-8, and no interior `NUL` byte.
pub open spec fn valid_credential(s: Seq<u8>, max: int) -> bool {
    &&& s.len() <= max
    &&& valid_utf8(s)
    &&& no_interior_nul(s)
}

/// Validate credential bytes against capacity `max`, reporting the first
/// violation in the order: too long, invalid UTF-8, interior `NUL`.
pub(crate) fn check_credential(bytes: &[u8], max: usize) -> (r: Result<(), WifiConfigError>)
    ensures
        r is Ok <==> valid_credential(bytes@, max as int),
        match r {
            Ok(()) => true,
            Err(e) => {
                if bytes@.len() > max {
                    e == WifiConfigError::TooLong(max, bytes@.len() as usize)
                } else if !valid_utf8(bytes@) {
                    e matches WifiConfigError::Utf8Error(i) && 0 <= i <= bytes@.len()
                        && valid_utf8(bytes@.subrange(0, i as int)) && (forall|j: int|
                        i < j <= bytes@.len() ==> !valid_utf8(bytes@.subrange(0, j)))
                } else {
                    e matches WifiConfigError::InteriorNul(i) && 0 <= i < bytes@.len()
                        && bytes@[i as int] == 0 && (forall|j: int|
                        0 <= j < i ==> bytes@[j] != 0)
                }
            },
        },
{
    if bytes.len() > max {
        return Err(WifiConfigError::TooLong(max, bytes.len()));
    }

    if let Err(pos) = utf8_check(bytes) {
        return Err(WifiConfigError::Utf8Error(pos));
    }

    if let Some(pos) = memchr::memchr(0, bytes) {
        return Err(WifiConfigError::InteriorNul(pos));
    }

    Ok(())
}

/// Compare two byte vectors for equality of their contents.
pub(crate) fn bytes_eq(a: &Vec<u8>, b: &Vec<u8>) -> (r: bool)
    ensures
        r == (a@ == b@),
{
    if a.len() != b.len() {
        return false;
    }
    let n = a.len();
    let mut i: usize = 0;
    while i < n
        invariant
            0 <= i <= n,
            n == a@.len() == b@.len(),
            forall|j: int| 0 <= j < i ==> a@[j] == b@[j],
        decreases n - i,
    {
        if a[i] != b[i] {
            return false;
        }
        i = i + 1;
    }
    proof {
        assert(a@ =~= b@);
    }
    true
}

} // verus!
