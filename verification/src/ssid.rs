//! A validated WiFi network name: at most 32 bytes of UTF-8 without an
//! interior `NUL` byte.

use vstd::prelude::*;
use vstd::slice::slice_to_vec;
use vstd::utf8::encode_utf8;
use crate::credential::{check_credential, valid_credential};
use crate::error::WifiConfigError;
use crate::trusted::utf8_to_string;

verus! {

/// The capacity of an SSID in bytes.
pub const SSID_MAX_LEN: usize = 32;

/// A WiFi SSID.
#[derive(Debug)]
pub struct Ssid {
    bytes: Vec<u8>,
}

impl Clone for Ssid {
    /// A cloned SSID holds the same bytes.
    fn clone(&self) -> (r: Ssid)
        ensures
            r@ == self@,
    {
        proof {
            use_type_invariant(self);
        }
        Ssid { bytes: slice_to_vec(self.bytes.as_slice()) }
    }
}

impl View for Ssid {
    type V = Seq<u8>;

    closed spec fn view(&self) -> Seq<u8> {
        self.bytes@
    }
}

impl Ssid {
    /// Every constructed SSID holds validated bytes.
    #[verifier::type_invariant]
    closed spec fn type_wf(self) -> bool {
        valid_credential(self.bytes@, SSID_MAX_LEN as int)
    }

    /// The length of the SSID in bytes.
    pub fn len(&self) -> (r: usize)
        ensures
            r == self@.len(),
            valid_credential(self@, SSID_MAX_LEN as int),
    {
        proof {
            use_type_invariant(self);
        }
        self.bytes.len()
    }

    /// The validated bytes of the SSID.
    pub fn as_bytes(&self) -> (r: &Vec<u8>)
        ensures
            r@ == self@,
            valid_credential(self@, SSID_MAX_LEN as int),
    {
        proof {
            use_type_invariant(self);
        }
        &self.bytes
    }

    /// The SSID as text; its UTF-8 encoding is exactly the stored bytes, so
    /// displaying an SSID and reading it back yields the identical value.
    pub fn as_str(&self) -> (r: String)
        ensures
            encode_utf8(r@) == self@,
    {
        proof {
            use_type_invariant(self);
        }
        utf8_to_string(&self.bytes)
    }

    /// Validate `bytes` as an SSID.  Succeeds exactly on valid credential
    /// bytes and returns a value holding those very bytes; otherwise reports
    /// the first violation in the order: too long, invalid UTF-8, interior
    /// `NUL`.
    pub fn from_bytes(bytes: &[u8]) -> (r: Result<Ssid, WifiConfigError>)
        ensures
            r is Ok <==> valid_credential(bytes@, SSID_MAX_LEN as int),
            match r {
                Ok(ssid) => ssid@ == bytes@,
                Err(e) => {
                    if bytes@.len() > SSID_MAX_LEN {
                        e == WifiConfigError::TooLong(SSID_MAX_LEN, bytes@.len() as usize)
                    } else if !vstd::utf8::valid_utf8(bytes@) {
                        e matches WifiConfigError::Utf8Error(i) && 0 <= i <= bytes@.len()
                            && vstd::utf8::valid_utf8(bytes@.subrange(0, i as int)) && (forall|
                            j: int,
                        |
                            i < j <= bytes@.len() ==> !vstd::utf8::valid_utf8(
                                bytes@.subrange(0, j),
                            ))
                    } else {
                        e matches WifiConfigError::InteriorNul(i) && 0 <= i < bytes@.len()
                            && bytes@[i as int] == 0 && (forall|j: int|
                            0 <= j < i ==> bytes@[j] != 0)
                    }
                },
            },
    {
        match check_credential(bytes, SSID_MAX_LEN) {
            Ok(()) => Ok(Ssid { bytes: slice_to_vec(bytes) }),
            Err(e) => Err(e),
        }
    }

    /// Build an SSID from bytes already known to be valid.
    pub fn from_bytes_unchecked(bytes: &[u8]) -> (r: Ssid)
        requires
            valid_credential(bytes@, SSID_MAX_LEN as int),
        ensures
            r@ == bytes@,
    {
        Ssid { bytes: slice_to_vec(bytes) }
    }
}

impl PartialEq for Ssid {
    /// Two SSIDs are equal when they hold the same bytes.
    fn eq(&self, other: &Ssid) -> (r: bool) {
        crate::credential::bytes_eq(&self.bytes, &other.bytes)
    }
}

impl Eq for Ssid {

}

impl vstd::std_specs::cmp::PartialEqSpecImpl for Ssid {
    open spec fn obeys_eq_spec() -> bool {
        true
    }

    open spec fn eq_spec(&self, other: &Ssid) -> bool {
        self@ == other@
    }
}

} // verus!
