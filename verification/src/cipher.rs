//! WiFi cipher types, carried opaquely as enumerated hardware values.

use vstd::prelude::*;

verus! {

/// A WiFi cipher type.
#[derive(Debug, Clone, Copy, PartialEq, Eq, Structural)]
pub enum Cipher {
    NoCipher,
    Wep40,
    Wep104,
    Tkip,
    Ccmp,
    TkipCcmp,
    AesCmac128,
    Sms4,
    Unknown,
}

/// The numeric value the hardware uses for `cipher`.
pub open spec fn spec_cipher_code(cipher: Cipher) -> u32 {
    match cipher {
        Cipher::NoCipher => 0,
        Cipher::Wep40 => 1,
        Cipher::Wep104 => 2,
        Cipher::Tkip => 3,
        Cipher::Ccmp => 4,
        Cipher::TkipCcmp => 5,
        Cipher::AesCmac128 => 6,
        Cipher::Sms4 => 7,
        Cipher::Unknown => 8,
    }
}

/// The cipher denoted by a numeric hardware value; values outside the fixed
/// vocabulary map to `Unknown`.
pub open spec fn spec_cipher_from_code(code: u32) -> Cipher {
    if code == 0 {
        Cipher::NoCipher
    } else if code == 1 {
        Cipher::Wep40
    } else if code == 2 {
        Cipher::Wep104
    } else if code == 3 {
        Cipher::Tkip
    } else if code == 4 {
        Cipher::Ccmp
    } else if code == 5 {
        Cipher::TkipCcmp
    } else if code == 6 {
        Cipher::AesCmac128
    } else if code == 7 {
        Cipher::Sms4
    } else {
        Cipher::Unknown
    }
}

impl Cipher {
    /// The numeric value the hardware uses for this cipher.
    pub fn code(self) -> (r: u32)
        ensures
            r == spec_cipher_code(self),
    {
        match self {
            Cipher::NoCipher => 0,
            Cipher::Wep40 => 1,
            Cipher::Wep104 => 2,
            Cipher::Tkip => 3,
            Cipher::Ccmp => 4,
            Cipher::TkipCcmp => 5,
            Cipher::AesCmac128 => 6,
            Cipher::Sms4 => 7,
            Cipher::Unknown => 8,
        }
    }

    /// Map a numeric hardware value to a cipher.
    pub fn from_code(code: u32) -> (r: Cipher)
        ensures
            r == spec_cipher_from_code(code),
    {
        match code {
            0 => Cipher::NoCipher,
            1 => Cipher::Wep40,
            2 => Cipher::Wep104,
            3 => Cipher::Tkip,
            4 => Cipher::Ccmp,
            5 => Cipher::TkipCcmp,
            6 => Cipher::AesCmac128,
            7 => Cipher::Sms4,
            _ => Cipher::Unknown,
        }
    }
}

/// The numeric encoding and decoding of cipher types are mutually inverse
/// over the fixed vocabulary.
pub proof fn lemma_cipher_code_round_trip(cipher: Cipher)
    ensures
        spec_cipher_from_code(spec_cipher_code(cipher)) == cipher,
{
}

} // verus!
