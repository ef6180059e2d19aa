//! A validated WiFi password: at most 64 bytes of UTF-8 without an interior
//! `NUL` byte.

use vstd::prelude::*;
use vstd::slice::slice_to_vec;
use vstd::utf8::encode_utf8;
use crate::credential::{bytes_eq, check_credential, valid_credential};
use crate::error::WifiConfigError;
use crate::trusted::utf8_to_string;

verus! {

/// The capacity of a password in bytes.
pub const PASSWORD_MAX_LEN: usize = 64;

/// A WiFi password.
#[derive(Debug)]
pub struct Password {
    bytes: Vec<u8>,
}

impl Clone for Password {
    /// A cloned password holds the same bytes.
    fn clone(&self) -> (r: Password)
        ensures
            r@ == self@,
    {
        proof {
            use_type_invariant(self);
        }
        Password { bytes: slice_to_vec(self.bytes.as_slice()) }
    }
}

impl View for Password {
    type V = Seq<u8>;

    closed spec fn view(&self) -> Seq<u8> {
        self.bytes@
    }
}

impl Password {
    /// Every constructed password holds validated bytes.
    #[verifier::type_invariant]
    closed spec fn type_wf(self) -> bool {
        valid_credential(self.bytes@, PASSWORD_MAX_LEN as int)
    }

    /// The length of the password in bytes.
    pub fn len(&self) -> (r: usize)
        ensures
            r == self@.len(),
            valid_credential(self@, PASSWORD_MAX_LEN as int),
    {
        proof {
            use_type_invariant(self);
        }
        self.bytes.len()
    }

    /// The validated bytes of the password.
    pub fn as_bytes(&self) -> (r: &Vec<u8>)
        ensures
            r@ == self@,
            valid_credential(self@, PASSWORD_MAX_LEN as int),
    {
        proof {
            use_type_invariant(self);
        }
        &self.bytes
    }

    /// The password as text; its UTF-8 encoding is exactly the stored bytes.
    pub fn as_str(&self) -> (r: String)
        ensures
            encode_utf8(r@) == self@,
    {
        proof {
            use_type_invariant(self);
        }
        utf8_to_string(&self.bytes)
    }

    /// Validate `bytes` as a password.  Succeeds exactly on valid credential
    /// bytes and returns a value holding those very bytes; otherwise reports
    /// the first violation in the order: too long, invalid UTF-8, interior
    /// `NUL`.
    pub fn from_bytes(bytes: &[u8]) -> (r: Result<Password, WifiConfigError>)
        ensures
            r is Ok <==> valid_credential(bytes@, PASSWORD_MAX_LEN as int),
            match r {
                Ok(password) => password@ == bytes@,
                Err(e) => {
                    if bytes@.len() > PASSWORD_MAX_LEN {
                        e == WifiConfigError::TooLong(PASSWORD_MAX_LEN, bytes@.len() as usize)
                    } else if !vstd::utf8::valid_utf8(bytes@) {
                        e matches WifiConfigError::Utf8Error(i) && 0 <= i <= bytes@.len()
                            && vstd::utf8::valid_utf8(bytes@.subrange(0, i as int)) && (forall|
                            j: int,
                        |
                            i < j <= bytes@.len() ==> !vstd::utf8::valid_utf8(
                                bytes@.subrange(0, j),
                            ))
                    } else {
                        e matches WifiConfigError::InteriorNul(i) && 0 <= i < bytes@.len()
                            && bytes@[i as int] == 0 && (forall|j: int|
                            0 <= j < i ==> bytes@[j] != 0)
                    }
                },
            },
    {
        match check_credential(bytes, PASSWORD_MAX_LEN) {
            Ok(()) => Ok(Password { bytes: slice_to_vec(bytes) }),
            Err(e) => Err(e),
        }
    }

    /// Build a password from bytes already known to be valid.
    pub fn from_bytes_unchecked(bytes: &[u8]) -> (r: Password)
        requires
            valid_credential(bytes@, PASSWORD_MAX_LEN as int),
        ensures
            r@ == bytes@,
    {
        Password { bytes: slice_to_vec(bytes) }
    }

    /// The empty password.
    pub fn empty() -> (r: Password)
        ensures
            r@ == Seq::<u8>::empty(),
    {
        let bytes: Vec<u8> = Vec::new();
        proof {
            assert(bytes@ =~= Seq::<u8>::empty());
        }
        Password { bytes }
    }
}

impl Default for Password {
    /// The default password is empty.
    fn default() -> (r: Password)
        ensures
            r@ == Seq::<u8>::empty(),
    {
        Password::empty()
    }
}

impl PartialEq for Password {
    /// Two passwords are equal when they hold the same bytes.
    fn eq(&self, other: &Password) -> (r: bool) {
        bytes_eq(&self.bytes, &other.bytes)
    }
}

impl Eq for Password {

}

impl vstd::std_specs::cmp::PartialEqSpecImpl for Password {
    open spec fn obeys_eq_spec() -> bool {
        true
    }

    open spec fn eq_spec(&self, other: &Password) -> bool {
        self@ == other@
    }
}

} // verus!
