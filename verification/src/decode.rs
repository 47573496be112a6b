//! The one rule by which every reply is read: the payload counts only
//! beside a zero status, and every other status is the error of its kind.

use vstd::prelude::*;
use vstd::slice::slice_subrange;
use vstd::string::StringSliceAdditionalSpecFns;
use vstd::utf8::{
    decode_utf8, decode_utf8_encode_utf8, encode_utf8, encode_utf8_decode_utf8,
    encode_utf8_valid_utf8, valid_utf8,
};
use crate::bindings::{
    Payload, Reply, ResultStr, ResultU16, ResultU32, ResultU64, ResultU64Dual,
};
use crate::error::{status_kind, RocmErr};

verus! {

/// The error that `core::str::from_utf8` returns. Nothing is read from it.
#[verifier::external_type_specification]
#[verifier::external_body]
pub struct ExUtf8Error(core::str::Utf8Error);

/// `core::str::from_utf8` accepts exactly the byte sequences that are
/// valid UTF-8, and the text it returns is made of the bytes it was given.
pub assume_specification[ core::str::from_utf8 ](v: &[u8]) -> (r: Result<
    &str,
    core::str::Utf8Error,
>)
    ensures
        r is Ok <==> valid_utf8(v@),
        r matches Ok(s) ==> s.spec_bytes() == v@,
;

/// `n` is where the text in `raw` ends: no byte before `n` is zero, and
/// `n` is the place of a zero byte or, where there is none, the end.
pub open spec fn is_text_end(raw: Seq<u8>, n: int) -> bool {
    &&& 0 <= n <= raw.len()
    &&& forall|i: int| 0 <= i < n ==> raw[i] != 0
    &&& n < raw.len() ==> raw[n] == 0
}

/// Where the text in `raw` ends, counted from the front.
pub open spec fn text_end(raw: Seq<u8>) -> int
    decreases raw.len(),
{
    if raw.len() == 0 || raw[0] == 0 {
        0
    } else {
        1 + text_end(raw.skip(1))
    }
}

/// The bytes of the text in `raw`: all that stand before the first zero
/// byte, and all of `raw` where it holds none.
pub open spec fn text_bytes(raw: Seq<u8>) -> Seq<u8> {
    raw.take(text_end(raw))
}

/// `text_end` is the one place where the text ends.
pub proof fn lemma_text_end(raw: Seq<u8>, n: int)
    ensures
        is_text_end(raw, text_end(raw)),
        is_text_end(raw, n) ==> n == text_end(raw),
    decreases raw.len(),
{
    if raw.len() == 0 || raw[0] == 0 {
    } else {
        let rest = raw.skip(1);
        lemma_text_end(rest, n - 1);
        assert forall|i: int| 0 <= i < 1 + text_end(rest) implies raw[i] != 0 by {
            if i > 0 {
                assert(raw[i] == rest[i - 1]);
            }
        }
        if 1 + text_end(rest) < raw.len() {
            assert(raw[1 + text_end(rest)] == rest[text_end(rest)]);
        }
        if is_text_end(raw, n) {
            assert(n > 0);
            assert forall|i: int| 0 <= i < n - 1 implies rest[i] != 0 by {
                assert(rest[i] == raw[i + 1]);
            }
            if n - 1 < rest.len() {
                assert(rest[n - 1] == raw[n]);
            }
            assert(is_text_end(rest, n - 1));
        }
    }
}

impl Reply {
    /// What a reply without a payload says.
    pub open spec fn unit_outcome(self) -> Result<(), RocmErr> {
        if self.status != 0 {
            Err(status_kind(self.status))
        } else {
            Ok(())
        }
    }

    /// What a reply with a 16-bit payload says.
    pub open spec fn u16_outcome(self) -> Result<u16, RocmErr> {
        if self.status != 0 {
            Err(status_kind(self.status))
        } else {
            Ok(self.payload->U16_0)
        }
    }

    /// What a reply with a 32-bit payload says.
    pub open spec fn u32_outcome(self) -> Result<u32, RocmErr> {
        if self.status != 0 {
            Err(status_kind(self.status))
        } else {
            Ok(self.payload->U32_0)
        }
    }

    /// What a reply with a 64-bit payload says.
    pub open spec fn u64_outcome(self) -> Result<u64, RocmErr> {
        if self.status != 0 {
            Err(status_kind(self.status))
        } else {
            Ok(self.payload->U64_0)
        }
    }

    /// What a reply with two 64-bit values says.
    pub open spec fn dual_outcome(self) -> Result<(u64, u64), RocmErr> {
        if self.status != 0 {
            Err(status_kind(self.status))
        } else {
            Ok((self.payload->Dual_0, self.payload->Dual_1))
        }
    }

    /// What a reply with a text says: beside a zero status, the characters
    /// that the bytes before the terminator encode, and the unknown error
    /// where there are no bytes or they are not valid UTF-8.
    pub open spec fn text_outcome(self) -> Result<Seq<char>, RocmErr> {
        if self.status != 0 {
            Err(status_kind(self.status))
        } else {
            match self.payload->Text_0 {
                Some(raw) if valid_utf8(text_bytes(raw)) => Ok(decode_utf8(text_bytes(raw))),
                _ => Err(RocmErr::RsmiStatusUnknownError),
            }
        }
    }
}

/// A text that a query returns is the text that was sent: its encoding is,
/// byte for byte, what stands before the terminator in the reply.
pub proof fn lemma_text_is_what_was_sent(reply: Reply)
    requires
        reply.text_outcome() is Ok,
    ensures
        reply.status == 0,
        reply.payload->Text_0 is Some,
        encode_utf8(reply.text_outcome()->Ok_0) == text_bytes(reply.payload->Text_0->Some_0),
{
    decode_utf8_encode_utf8(text_bytes(reply.payload->Text_0->Some_0));
}

/// A text whose encoding holds no zero byte comes back as it was sent,
/// whether the bytes end there or a terminator and more follow them.
pub proof fn lemma_text_round_trip(chars: Seq<char>, tail: Seq<u8>)
    requires
        forall|i: int| 0 <= i < encode_utf8(chars).len() ==> encode_utf8(chars)[i] != 0,
        tail.len() == 0 || tail[0] == 0,
    ensures
        (Reply { status: 0, payload: Payload::Text(Some(encode_utf8(chars) + tail)) }).text_outcome()
            == Ok::<Seq<char>, RocmErr>(chars),
{
    let bytes = encode_utf8(chars);
    let raw = bytes + tail;
    assert(is_text_end(raw, bytes.len() as int)) by {
        if bytes.len() < raw.len() {
            assert(raw[bytes.len() as int] == tail[0]);
        }
    }
    lemma_text_end(raw, bytes.len() as int);
    assert(text_bytes(raw) =~= bytes);
    encode_utf8_valid_utf8(chars);
    encode_utf8_decode_utf8(chars);
}

/// A text result with the characters of its string in the string's place.
pub open spec fn text_view(r: Result<String, RocmErr>) -> Result<Seq<char>, RocmErr> {
    match r {
        Ok(s) => Ok(s@),
        Err(e) => Err(e),
    }
}

impl ResultU16 {
    /// Reads the reply: its value beside a zero status, else the error.
    pub fn decode(&self) -> (r: Result<u16, RocmErr>)
        ensures
            r == self@.u16_outcome(),
    {
        if self.status != 0 {
            return Err(RocmErr::from_u16(self.status));
        }
        Ok(self.data)
    }
}

impl ResultU32 {
    /// Reads the reply: its value beside a zero status, else the error.
    pub fn decode(&self) -> (r: Result<u32, RocmErr>)
        ensures
            r == self@.u32_outcome(),
    {
        if self.status != 0 {
            return Err(RocmErr::from_u16(self.status));
        }
        Ok(self.data)
    }
}

impl ResultU64 {
    /// Reads the reply: its value beside a zero status, else the error.
    pub fn decode(&self) -> (r: Result<u64, RocmErr>)
        ensures
            r == self@.u64_outcome(),
    {
        if self.status != 0 {
            return Err(RocmErr::from_u16(self.status));
        }
        Ok(self.data)
    }
}

impl ResultU64Dual {
    /// Reads the reply: its two values beside a zero status, else the
    /// error.
    pub fn decode(&self) -> (r: Result<(u64, u64), RocmErr>)
        ensures
            r == self@.dual_outcome(),
    {
        if self.status != 0 {
            return Err(RocmErr::from_u16(self.status));
        }
        Ok((self.data1, self.data2))
    }
}

/// Finds where the text in `bytes` ends.
pub fn text_len(bytes: &[u8]) -> (n: usize)
    ensures
        n == text_end(bytes@),
{
    let mut i: usize = 0;
    while i < bytes.len() && bytes[i] != 0
        invariant
            i <= bytes@.len(),
            forall|j: int| 0 <= j < i ==> bytes@[j] != 0,
        decreases bytes@.len() - i,
    {
        i += 1;
    }
    proof {
        lemma_text_end(bytes@, i as int);
    }
    i
}

impl ResultStr {
    /// Reads the reply: beside a zero status the text, as an owned string,
    /// that the bytes before the terminator encode, else the error. No
    /// bytes at all, and bytes that are not valid UTF-8, give the unknown
    /// error.
    pub fn decode(&self) -> (r: Result<String, RocmErr>)
        ensures
            text_view(r) == self@.text_outcome(),
    {
        if self.status != 0 {
            return Err(RocmErr::from_u16(self.status));
        }
        let data = match &self.data {
            Some(data) => data,
            None => {
                return Err(RocmErr::RsmiStatusUnknownError);
            },
        };
        let n = text_len(data.as_slice());
        proof {
            lemma_text_end(data@, n as int);
        }
        let bytes = slice_subrange(data.as_slice(), 0, n);
        match core::str::from_utf8(bytes) {
            Ok(text) => {
                proof {
                    encode_utf8_decode_utf8(text@);
                }
                Ok(text.to_owned())
            },
            Err(_) => Err(RocmErr::RsmiStatusUnknownError),
        }
    }
}

} // verus!
