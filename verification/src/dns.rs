//! A zero-dependency parser for the question section of a DNS frame
//! (RFC 1035): length-prefixed labels followed by a two-byte type and a
//! two-byte class, both big-endian.

use vstd::prelude::*;
use vstd::slice::{slice_subrange, slice_to_vec};
use vstd::string::StringSliceAdditionalSpecFns;

verus! {

/// A DNS response code.
#[derive(Debug, Clone, Copy, PartialEq, Eq, Structural)]
pub enum ResponseCode {
    NoError,
    FormatError,
    ServerFailure,
    NameError,
    NotImplemented,
    Refused,
}

/// A DNS query type, carried as its numeric wire value.
#[derive(Debug, Clone, Copy, PartialEq, Eq, Structural)]
pub struct QueryKind {
    pub code: u16,
}

/// A DNS query class, carried as its numeric wire value.
#[derive(Debug, Clone, Copy, PartialEq, Eq, Structural)]
pub struct QueryClass {
    pub code: u16,
}

/// The value of two big-endian bytes.
pub open spec fn be16(hi: u8, lo: u8) -> u16 {
    (hi * 256 + lo) as u16
}

/// A well-formed label sequence: each length-prefixed label lies within the
/// bytes, until a zero length byte or the end.
pub open spec fn name_wf(s: Seq<u8>) -> bool
    decreases s.len(),
{
    if s.len() == 0 {
        true
    } else if s[0] == 0 {
        true
    } else if 1 + s[0] <= s.len() {
        name_wf(s.skip(1 + s[0]))
    } else {
        false
    }
}

/// The dotted text of a label sequence: the labels joined by `.`, up to the
/// first zero length byte or the end.
pub open spec fn dotted_name(s: Seq<u8>) -> Seq<u8>
    recommends
        name_wf(s),
    decreases s.len(),
{
    if s.len() == 0 || s[0] == 0 {
        Seq::<u8>::empty()
    } else if 1 + s[0] <= s.len() {
        let label = s.subrange(1, 1 + s[0]);
        let rest = s.skip(1 + s[0]);
        if rest.len() == 0 || rest[0] == 0 {
            label
        } else {
            label + seq![46u8] + dotted_name(rest)
        }
    } else {
        Seq::<u8>::empty()
    }
}

/// Where the question starting at `i` ends: after its labels, the zero
/// terminator, and four bytes of type and class; `None` if the bytes run
/// out first.
pub open spec fn q_end(s: Seq<u8>, i: int) -> Option<int>
    decreases s.len() - i,
{
    if !(0 <= i < s.len()) {
        None
    } else if s[i] == 0 {
        if i + 5 <= s.len() {
            Some(i + 5)
        } else {
            None
        }
    } else if i + 1 + s[i] <= s.len() {
        q_end(s, i + 1 + s[i])
    } else {
        None
    }
}

/// A parsed question spans at least its five-byte tail, stays within the
/// bytes, and carries a well-formed label sequence before the tail.
proof fn lemma_q_end_wf(s: Seq<u8>, i: int)
    requires
        q_end(s, i) is Some,
    ensures
        i + 5 <= q_end(s, i).unwrap() <= s.len(),
        name_wf(s.subrange(i, q_end(s, i).unwrap() - 5)),
    decreases s.len() - i,
{
    let e = q_end(s, i).unwrap();
    if s[i] == 0 {
        assert(s.subrange(i, e - 5) =~= Seq::<u8>::empty());
    } else {
        let j = i + 1 + s[i];
        lemma_q_end_wf(s, j);
        let name = s.subrange(i, e - 5);
        assert(name.skip(1 + s[i]) =~= s.subrange(j, e - 5));
        assert(name_wf(name));
    }
}

/// A DNS question: its raw bytes, from the first label length to the last
/// class byte.
#[derive(Debug)]
pub struct Question {
    buf: Vec<u8>,
}

impl View for Question {
    type V = Seq<u8>;

    closed spec fn view(&self) -> Seq<u8> {
        self.buf@
    }
}

/// A DNS question name: the label sequence of a question, without the zero
/// terminator.
#[derive(Debug)]
pub struct QuestionName {
    buf: Vec<u8>,
}

impl View for QuestionName {
    type V = Seq<u8>;

    closed spec fn view(&self) -> Seq<u8> {
        self.buf@
    }
}

impl Question {
    /// Every parsed question has its five-byte tail and a well-formed label
    /// sequence.
    #[verifier::type_invariant]
    closed spec fn type_wf(self) -> bool {
        self.buf@.len() >= 5 && name_wf(self.buf@.subrange(0, self.buf@.len() - 5))
    }

    /// The name the question asks about.
    pub fn name(&self) -> (r: QuestionName)
        ensures
            r@ == self@.subrange(0, self@.len() - 5),
            name_wf(r@),
    {
        proof {
            use_type_invariant(self);
        }
        let end = self.buf.len() - 5;
        QuestionName { buf: slice_to_vec(slice_subrange(self.buf.as_slice(), 0, end)) }
    }

    /// The query type of the question.
    pub fn kind(&self) -> (r: QueryKind)
        ensures
            r.code == be16(self@[self@.len() - 4], self@[self@.len() - 3]),
    {
        proof {
            use_type_invariant(self);
        }
        let b0 = self.buf[self.buf.len() - 4];
        let b1 = self.buf[self.buf.len() - 3];
        QueryKind { code: (b0 as u16) * 256 + (b1 as u16) }
    }

    /// The query class of the question.
    pub fn class(&self) -> (r: QueryClass)
        ensures
            r.code == be16(self@[self@.len() - 2], self@[self@.len() - 1]),
    {
        proof {
            use_type_invariant(self);
        }
        let b0 = self.buf[self.buf.len() - 2];
        let b1 = self.buf[self.buf.len() - 1];
        QueryClass { code: (b0 as u16) * 256 + (b1 as u16) }
    }

    /// The raw bytes of the question.
    pub fn as_bytes(&self) -> (r: &Vec<u8>)
        ensures
            r@ == self@,
            self@.len() >= 5,
    {
        proof {
            use_type_invariant(self);
        }
        &self.buf
    }
}

impl QuestionName {
    /// Every question name is a well-formed label sequence.
    #[verifier::type_invariant]
    closed spec fn type_wf(self) -> bool {
        name_wf(self.buf@)
    }

    /// The dotted text of this name, as bytes: the labels joined by `.`.
    pub fn to_bytes(&self) -> (r: Vec<u8>)
        ensures
            r@ == dotted_name(self@),
    {
        proof {
            use_type_invariant(self);
        }
        let n = self.buf.len();
        let mut out: Vec<u8> = Vec::new();
        let mut i: usize = 0;

        proof {
            assert(self.buf@.skip(0) =~= self.buf@);
            assert(Seq::<u8>::empty() + dotted_name(self.buf@) =~= dotted_name(self.buf@));
            assert(Seq::<u8>::empty() + Seq::<u8>::empty() =~= Seq::<u8>::empty());
        }
        while i < n && self.buf[i] != 0
            invariant
                0 <= i <= n,
                n == self.buf@.len(),
                name_wf(self.buf@.skip(i as int)),
                dotted_name(self.buf@) == out@ + (if i < n && self.buf@[i as int] != 0 {
                    (if i > 0 {
                        seq![46u8]
                    } else {
                        Seq::<u8>::empty()
                    }) + dotted_name(self.buf@.skip(i as int))
                } else {
                    Seq::<u8>::empty()
                }),
            decreases n - i,
        {
            let ghost rest = self.buf@.skip(i as int);
            let ghost out_pre = out@;
            if i > 0 {
                out.push(46);
            }
            let l = self.buf[i] as usize;
            proof {
                assert(rest[0] == self.buf@[i as int]);
                assert(1 + l <= rest.len());
            }
            let stop = i + 1 + l;
            let mut k = i + 1;
            while k < stop
                invariant
                    i + 1 <= k <= stop,
                    stop <= n,
                    n == self.buf@.len(),
                    out@ =~= (if i > 0 {
                        out_pre + seq![46u8]
                    } else {
                        out_pre
                    }) + self.buf@.subrange(i + 1, k as int),
                decreases stop - k,
            {
                let b = self.buf[k];
                out.push(b);
                proof {
                    assert(self.buf@.subrange(i + 1, k + 1) =~= self.buf@.subrange(i + 1, k as int)
                        + seq![b]);
                }
                k = k + 1;
            }
            proof {
                let label = rest.subrange(1, 1 + l);
                assert(self.buf@.subrange(i + 1, stop as int) =~= label);
                assert(rest.skip(1 + l) =~= self.buf@.skip(stop as int));
                let tail = rest.skip(1 + l);
                if tail.len() == 0 || tail[0] == 0 {
                    assert(dotted_name(rest) == label);
                    assert(out@ =~= out_pre + (if i > 0 {
                        seq![46u8]
                    } else {
                        Seq::<u8>::empty()
                    }) + dotted_name(rest));
                } else {
                    assert(dotted_name(rest) == label + seq![46u8] + dotted_name(tail));
                    assert(out@ + seq![46u8] + dotted_name(tail) =~= out_pre + (if i > 0 {
                        seq![46u8]
                    } else {
                        Seq::<u8>::empty()
                    }) + dotted_name(rest));
                }
            }
            i = stop;
        }
        out
    }

    /// Whether the dotted text of this name equals the given string, byte
    /// for byte.
    pub fn eq_str(&self, other: &str) -> (r: bool)
        ensures
            r == (dotted_name(self@) == other.spec_bytes()),
    {
        let dotted = self.to_bytes();
        let other_bytes = other.as_bytes();
        if dotted.len() != other_bytes.len() {
            return false;
        }
        let n = dotted.len();
        let mut i: usize = 0;
        while i < n
            invariant
                0 <= i <= n,
                n == dotted@.len() == other_bytes@.len(),
                dotted@ == dotted_name(self@),
                other_bytes@ == other.spec_bytes(),
                forall|j: int| 0 <= j < i ==> dotted@[j] == other_bytes@[j],
            decreases n - i,
        {
            if dotted[i] != other_bytes[i] {
                return false;
            }
            i = i + 1;
        }
        proof {
            assert(dotted@ =~= other_bytes@);
        }
        true
    }
}

/// An iterator-like cursor over the questions contained in a DNS frame's
/// bytes.
#[derive(Debug)]
pub struct Questions {
    /// How many questions the frame header announced.
    pub question_count: usize,
    /// How many questions have been produced so far.
    pub current_question: usize,
    /// The frame bytes.
    pub buf: Vec<u8>,
    /// The position of the next question.
    pub buf_i: usize,
}

impl Questions {
    /// A cursor over `count` questions starting at `start` in `buf`.
    pub fn new(buf: Vec<u8>, count: usize, start: usize) -> (r: Questions)
        ensures
            r.buf == buf,
            r.question_count == count,
            r.current_question == 0,
            r.buf_i == start,
    {
        Questions { question_count: count, current_question: 0, buf, buf_i: start }
    }

    /// The next question: `None` once the announced count is exhausted, a
    /// format error if the bytes run out mid-question, and otherwise the
    /// question's bytes with the cursor advanced past them.
    pub fn next(&mut self) -> (r: Option<Result<Question, ResponseCode>>)
        ensures
            final (self).question_count == old(self).question_count,
            final (self).buf == old(self).buf,
            if old(self).current_question >= old(self).question_count {
                r is None && *final (self) == *old(self)
            } else {
                match q_end(old(self).buf@, old(self).buf_i as int) {
                    Some(end) => {
                        &&& (r matches Some(Ok(q)) && q@ == old(self).buf@.subrange(
                            old(self).buf_i as int,
                            end,
                        ))
                        &&& final (self).buf_i == end
                        &&& final (self).current_question == old(self).current_question + 1
                    },
                    None => {
                        r == Some(Result::<Question, ResponseCode>::Err(ResponseCode::FormatError))
                            && *final (self) == *old(self)
                    },
                }
            },
    {
        if self.current_question >= self.question_count {
            return None;
        }

        let s_len = self.buf.len();
        if self.buf_i >= s_len {
            return Some(Err(ResponseCode::FormatError));
        }
        let mut i = self.buf_i;

        loop
            invariant
                self.buf_i <= i <= s_len,
                s_len == self.buf@.len(),
                q_end(self.buf@, self.buf_i as int) == q_end(self.buf@, i as int),
                self.current_question < self.question_count,
                *self == *old(self),
            decreases s_len - i,
        {
            if i >= s_len {
                return Some(Err(ResponseCode::FormatError));
            }
            let part = self.buf[i];
            if part == 0 {
                if s_len - i < 5 {
                    return Some(Err(ResponseCode::FormatError));
                }
                let end = i + 5;
                proof {
                    lemma_q_end_wf(self.buf@, self.buf_i as int);
                    assert(self.buf@.subrange(self.buf_i as int, end as int).subrange(
                        0,
                        end - self.buf_i - 5,
                    ) =~= self.buf@.subrange(self.buf_i as int, end - 5));
                }
                let question = Question {
                    buf: slice_to_vec(slice_subrange(self.buf.as_slice(), self.buf_i, end)),
                };
                self.current_question = self.current_question + 1;
                self.buf_i = end;
                return Some(Ok(question));
            } else if (part as usize) <= s_len - i - 1 {
                i = i + 1 + part as usize;
            } else {
                return Some(Err(ResponseCode::FormatError));
            }
        }
    }
}

} // verus!
