//! The credential parsing boundary: extract and validate the `ssid` and
//! `password` fields of `application/x-www-form-urlencoded` bytes, as an
//! HTML form posts them.  Malformed or oversized values are rejected here,
//! before anything reaches the state machines.

use vstd::prelude::*;
use crate::credential::valid_credential;
use crate::password::{Password, PASSWORD_MAX_LEN};
use crate::ssid::{Ssid, SSID_MAX_LEN};

verus! {

/// The position of the first occurrence of `b` in `s`, or the length of `s`
/// if it does not occur.
pub open spec fn first_byte(s: Seq<u8>, b: u8) -> int
    decreases s.len(),
{
    if s.len() == 0 {
        0
    } else if s[0] == b {
        0
    } else {
        1 + first_byte(s.drop_first(), b)
    }
}

/// The position of the first occurrence is in bounds, holds `b` unless it is
/// the end, and nothing before it is `b`.
pub proof fn lemma_first_byte(s: Seq<u8>, b: u8)
    ensures
        0 <= first_byte(s, b) <= s.len(),
        first_byte(s, b) < s.len() ==> s[first_byte(s, b)] == b,
        forall|j: int| 0 <= j < first_byte(s, b) ==> s[j] != b,
    decreases s.len(),
{
    if s.len() > 0 && s[0] != b {
        lemma_first_byte(s.drop_first(), b);
        assert forall|j: int| 0 <= j < first_byte(s, b) implies s[j] != b by {
            if j > 0 {
                assert(s.drop_first()[j - 1] == s[j]);
            }
        }
    }
}

/// An ASCII hexadecimal digit.
pub open spec fn is_hex_digit(b: u8) -> bool {
    (48 <= b <= 57) || (65 <= b <= 70) || (97 <= b <= 102)
}

/// The value of an ASCII hexadecimal digit.
pub open spec fn spec_hex_val(b: u8) -> u8 {
    if 48 <= b <= 57 {
        (b - 48) as u8
    } else if 65 <= b <= 70 {
        (b - 55) as u8
    } else if 97 <= b <= 102 {
        (b - 87) as u8
    } else {
        0
    }
}

/// Decoding one component of a form-encoded string: `+` becomes a space,
/// `%` followed by two hexadecimal digits becomes the byte they spell, and
/// everything else, including a malformed `%` sequence, is kept as it is.
pub open spec fn form_decode(s: Seq<u8>) -> Seq<u8>
    decreases s.len(),
{
    if s.len() == 0 {
        Seq::<u8>::empty()
    } else if s[0] == 37 && s.len() >= 3 && is_hex_digit(s[1]) && is_hex_digit(s[2]) {
        seq![(spec_hex_val(s[1]) * 16 + spec_hex_val(s[2])) as u8] + form_decode(s.skip(3))
    } else if s[0] == 43 {
        seq![32u8] + form_decode(s.skip(1))
    } else {
        seq![s[0]] + form_decode(s.skip(1))
    }
}

/// The name and value of one `name=value` segment: the bytes before the
/// first `=`, and the bytes after it (empty if there is no `=`).  Both are
/// still encoded.
pub open spec fn split_pair(seg: Seq<u8>) -> (Seq<u8>, Seq<u8>) {
    let eq = first_byte(seg, 61);
    (
        seg.subrange(0, eq),
        if eq < seg.len() {
            seg.subrange(eq + 1, seg.len() as int)
        } else {
            Seq::<u8>::empty()
        },
    )
}

/// The `name=value` segments of a form-encoded string: split on `&`, with
/// empty segments skipped.  Names and values are still encoded.
pub open spec fn form_pairs(s: Seq<u8>) -> Seq<(Seq<u8>, Seq<u8>)>
    decreases s.len(),
{
    if s.len() == 0 {
        Seq::<(Seq<u8>, Seq<u8>)>::empty()
    } else {
        let amp = first_byte(s, 38);
        if 0 <= amp && amp < s.len() {
            let seg = s.subrange(0, amp);
            let rest = s.skip(amp + 1);
            if seg.len() == 0 {
                form_pairs(rest)
            } else {
                seq![split_pair(seg)] + form_pairs(rest)
            }
        } else {
            seq![split_pair(s)]
        }
    }
}

/// The ASCII bytes of the field name `ssid`.
pub open spec fn ssid_key() -> Seq<u8> {
    seq![115u8, 115u8, 105u8, 100u8]
}

/// The ASCII bytes of the field name `password`.
pub open spec fn password_key() -> Seq<u8> {
    seq![112u8, 97u8, 115u8, 115u8, 119u8, 111u8, 114u8, 100u8]
}

/// Walking the decoded pairs in order: each `ssid` or `password` field
/// replaces the candidate so far with its decoded value where that value is
/// valid, and with nothing where it is not; the walk stops early at the
/// first unrelated field seen once both candidates are present.
pub open spec fn scan_pairs(
    pairs: Seq<(Seq<u8>, Seq<u8>)>,
    ssid: Option<Seq<u8>>,
    password: Option<Seq<u8>>,
) -> (Option<Seq<u8>>, Option<Seq<u8>>)
    decreases pairs.len(),
{
    if pairs.len() == 0 {
        (ssid, password)
    } else {
        let name = form_decode(pairs[0].0);
        let value = form_decode(pairs[0].1);
        if name == ssid_key() {
            scan_pairs(
                pairs.drop_first(),
                if valid_credential(value, SSID_MAX_LEN as int) {
                    Some(value)
                } else {
                    None
                },
                password,
            )
        } else if name == password_key() {
            scan_pairs(
                pairs.drop_first(),
                ssid,
                if valid_credential(value, PASSWORD_MAX_LEN as int) {
                    Some(value)
                } else {
                    None
                },
            )
        } else if ssid is Some && password is Some {
            (ssid, password)
        } else {
            scan_pairs(pairs.drop_first(), ssid, password)
        }
    }
}

/// The `ssid` and `password` candidates a form-encoded string yields.
pub open spec fn spec_ssid_and_password(s: Seq<u8>) -> (Option<Seq<u8>>, Option<Seq<u8>>) {
    scan_pairs(form_pairs(s), None, None)
}

/// The bytes an `Option` of a credential value holds.
pub open spec fn ssid_opt_view(o: Option<Ssid>) -> Option<Seq<u8>> {
    match o {
        Some(s) => Some(s@),
        None => None,
    }
}

/// The bytes an `Option` of a password holds.
pub open spec fn password_opt_view(o: Option<Password>) -> Option<Seq<u8>> {
    match o {
        Some(p) => Some(p@),
        None => None,
    }
}

/// The value of an ASCII hexadecimal digit.
fn hex_val(b: u8) -> (r: u8)
    ensures
        r == spec_hex_val(b),
{
    if 48 <= b && b <= 57 {
        b - 48
    } else if 65 <= b && b <= 70 {
        b - 55
    } else if 97 <= b && b <= 102 {
        b - 87
    } else {
        0
    }
}

/// Decode one form-encoded component as [`form_decode`] prescribes.
pub fn form_decode_bytes(v: &[u8]) -> (r: Vec<u8>)
    ensures
        r@ == form_decode(v@),
{
    let n = v.len();
    let mut out: Vec<u8> = Vec::new();
    let mut i: usize = 0;
    proof {
        assert(v@.skip(0) =~= v@);
        assert(out@ + form_decode(v@) =~= form_decode(v@));
    }
    while i < n
        invariant
            0 <= i <= n,
            n == v@.len(),
            form_decode(v@) == out@ + form_decode(v@.skip(i as int)),
        decreases n - i,
    {
        let ghost pre = v@.skip(i as int);
        let ghost out_pre = out@;
        let b = v[i];
        proof {
            assert(pre[0] == b);
        }
        if b == 37 && n - i > 2 && {
            let b1 = v[i + 1];
            let b2 = v[i + 2];
            (48 <= b1 && b1 <= 57 || 65 <= b1 && b1 <= 70 || 97 <= b1 && b1 <= 102) && (48 <= b2
                && b2 <= 57 || 65 <= b2 && b2 <= 70 || 97 <= b2 && b2 <= 102)
        } {
            let decoded = hex_val(v[i + 1]) * 16 + hex_val(v[i + 2]);
            out.push(decoded);
            proof {
                assert(pre[1] == v@[i + 1] && pre[2] == v@[i + 2]);
                assert(pre.skip(3) =~= v@.skip(i + 3));
                assert(form_decode(pre) == seq![decoded] + form_decode(pre.skip(3)));
                assert(out@ =~= out_pre + seq![decoded]);
                assert(out_pre + (seq![decoded] + form_decode(v@.skip(i + 3))) =~= (out_pre
                    + seq![decoded]) + form_decode(v@.skip(i + 3)));
            }
            i = i + 3;
        } else if b == 43 {
            out.push(32);
            proof {
                assert(pre.skip(1) =~= v@.skip(i + 1));
                assert(form_decode(pre) == seq![32u8] + form_decode(pre.skip(1)));
                assert(out@ =~= out_pre + seq![32u8]);
                assert(out_pre + (seq![32u8] + form_decode(v@.skip(i + 1))) =~= (out_pre
                    + seq![32u8]) + form_decode(v@.skip(i + 1)));
            }
            i = i + 1;
        } else {
            out.push(b);
            proof {
                assert(pre.skip(1) =~= v@.skip(i + 1));
                assert(form_decode(pre) == seq![b] + form_decode(pre.skip(1)));
                assert(out@ =~= out_pre + seq![b]);
                assert(out_pre + (seq![b] + form_decode(v@.skip(i + 1))) =~= (out_pre + seq![b])
                    + form_decode(v@.skip(i + 1)));
            }
            i = i + 1;
        }
    }
    proof {
        assert(v@.skip(n as int) =~= Seq::<u8>::empty());
        assert(out@ =~= out@ + form_decode(v@.skip(n as int)));
    }
    out
}

/// Whether decoded bytes spell the field name `ssid`.
fn is_ssid_key(v: &Vec<u8>) -> (r: bool)
    ensures
        r == (v@ == ssid_key()),
{
    let r = v.len() == 4 && v[0] == 115 && v[1] == 115 && v[2] == 105 && v[3] == 100;
    proof {
        if r {
            assert(v@ =~= ssid_key());
        }
    }
    r
}

/// Whether decoded bytes spell the field name `password`.
fn is_password_key(v: &Vec<u8>) -> (r: bool)
    ensures
        r == (v@ == password_key()),
{
    let r = v.len() == 8 && v[0] == 112 && v[1] == 97 && v[2] == 115 && v[3] == 115 && v[4] == 119
        && v[5] == 111 && v[6] == 114 && v[7] == 100;
    proof {
        if r {
            assert(v@ =~= password_key());
        }
    }
    r
}

/// Extract and validate the `ssid` and `password` fields of form-encoded
/// bytes, as [`spec_ssid_and_password`] prescribes: later fields override
/// earlier ones, an invalid value clears the candidate, and the walk stops
/// at the first unrelated field once both are present.
pub fn ssid_and_password(params: &[u8]) -> (r: (Option<Ssid>, Option<Password>))
    ensures
        ssid_opt_view(r.0) == spec_ssid_and_password(params@).0,
        password_opt_view(r.1) == spec_ssid_and_password(params@).1,
{
    let n = params.len();
    let mut ssid: Option<Ssid> = None;
    let mut password: Option<Password> = None;
    let mut pos: usize = 0;

    proof {
        assert(params@.skip(0) =~= params@);
    }
    while pos < n
        invariant
            0 <= pos <= n,
            n == params@.len(),
            spec_ssid_and_password(params@) == scan_pairs(
                form_pairs(params@.skip(pos as int)),
                ssid_opt_view(ssid),
                password_opt_view(password),
            ),
        decreases n - pos,
    {
        let ghost s = params@.skip(pos as int);
        let rest = vstd::slice::slice_subrange(params, pos, n);
        let amp = match memchr::memchr(38, rest) {
            Some(a) => a,
            None => rest.len(),
        };
        proof {
            lemma_first_byte(s, 38);
            assert(amp == first_byte(s, 38));
        }

        let seg_end = pos + amp;
        let next_pos = if seg_end < n {
            seg_end + 1
        } else {
            n
        };
        proof {
            if amp < s.len() {
                assert(s.skip(amp + 1) =~= params@.skip(next_pos as int));
            } else {
                assert(params@.skip(next_pos as int) =~= Seq::<u8>::empty());
            }
        }

        if amp == 0 {
            pos = next_pos;
            continue ;
        }

        let ghost seg = s.subrange(0, amp as int);
        let seg_slice = vstd::slice::slice_subrange(params, pos, seg_end);
        proof {
            assert(seg_slice@ =~= seg);
        }

        let eq = match memchr::memchr(61, seg_slice) {
            Some(e) => e,
            None => amp,
        };
        proof {
            lemma_first_byte(seg, 61);
            assert(eq == first_byte(seg, 61));
        }

        let name_slice = vstd::slice::slice_subrange(params, pos, pos + eq);
        let value_slice = if eq < amp {
            vstd::slice::slice_subrange(params, pos + eq + 1, seg_end)
        } else {
            vstd::slice::slice_subrange(params, seg_end, seg_end)
        };
        proof {
            assert(name_slice@ =~= split_pair(seg).0);
            assert(value_slice@ =~= split_pair(seg).1);
            assert(form_pairs(s) =~= seq![split_pair(seg)] + form_pairs(
                params@.skip(next_pos as int),
            ));
            assert((seq![split_pair(seg)] + form_pairs(params@.skip(next_pos as int)))[0]
                == split_pair(seg));
            assert((seq![split_pair(seg)] + form_pairs(params@.skip(next_pos as int))).drop_first()
                =~= form_pairs(params@.skip(next_pos as int)));
        }

        let name = form_decode_bytes(name_slice);
        if is_ssid_key(&name) {
            let value = form_decode_bytes(value_slice);
            ssid = match Ssid::from_bytes(value.as_slice()) {
                Ok(v) => Some(v),
                Err(_) => None,
            };
        } else if is_password_key(&name) {
            let value = form_decode_bytes(value_slice);
            password = match Password::from_bytes(value.as_slice()) {
                Ok(v) => Some(v),
                Err(_) => None,
            };
        } else if ssid.is_some() && password.is_some() {
            return (ssid, password);
        }

        pos = next_pos;
    }

    proof {
        assert(params@.skip(n as int) =~= Seq::<u8>::empty());
    }
    (ssid, password)
}

} // verus!
