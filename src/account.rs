use vstd::prelude::*;
use vstd::bytes::{
    lemma_auto_spec_u64_to_from_le_bytes, spec_u64_from_le_bytes, spec_u64_to_le_bytes,
    spec_u64_to_le_bytes_to_open, u64_to_le_bytes,
};
use crate::bytes::read_u64_le;
use crate::error::CustomError;

verus! {

/// Size in bytes of the stored state record.
pub const STATE_LEN: usize = 16;

/// State kept in a program-derived account: how many times it was invoked,
/// and the Unix time of the last invocation.
#[derive(Clone, Copy, Debug, PartialEq, Eq, Structural)]
pub struct InvokeAccount {
    pub count: u64,
    pub timestamp: i64,
}

impl InvokeAccount {
    /// The record's bytes: `count`, then `timestamp`, each as 8 little-endian bytes.
    pub open spec fn spec_encode(self) -> Seq<u8> {
        spec_u64_to_le_bytes(self.count) + spec_u64_to_le_bytes(self.timestamp as u64)
    }

    /// The record held at the start of `data`, if `data` is large enough;
    /// bytes past the record are ignored.
    pub open spec fn spec_decode(data: Seq<u8>) -> Option<InvokeAccount> {
        if data.len() < STATE_LEN {
            None
        } else {
            Some(
                InvokeAccount {
                    count: spec_u64_from_le_bytes(data.subrange(0, 8)),
                    timestamp: spec_u64_from_le_bytes(data.subrange(8, 16)) as i64,
                },
            )
        }
    }

    /// `data` with its first bytes replaced by the record, the rest untouched.
    pub open spec fn spec_write(self, data: Seq<u8>) -> Seq<u8> {
        self.spec_encode() + data.subrange(STATE_LEN as int, data.len() as int)
    }

    /// Reads the record at the start of `data`; fails with `SchemaMismatch`
    /// exactly when `data` is shorter than the record.
    pub fn unpack(data: &[u8]) -> (r: Result<InvokeAccount, CustomError>)
        ensures
            match InvokeAccount::spec_decode(data@) {
                Some(s) => r == Ok::<InvokeAccount, CustomError>(s),
                None => r == Err::<InvokeAccount, CustomError>(CustomError::SchemaMismatch),
            },
    {
        if data.len() < STATE_LEN {
            return Err(CustomError::SchemaMismatch);
        }
        let count: u64 = read_u64_le(data, 0);
        let timestamp: u64 = read_u64_le(data, 8);
        Ok(InvokeAccount { count, timestamp: #[verifier::truncate] (timestamp as i64) })
    }

    /// Writes the record over the first bytes of `data`, leaving the rest as it was.
    pub fn pack_into(&self, data: &mut Vec<u8>)
        requires
            old(data)@.len() >= STATE_LEN,
        ensures
            final(data)@ == self.spec_write(old(data)@),
    {
        let mut bytes = u64_to_le_bytes(self.count);
        let tail = u64_to_le_bytes(#[verifier::truncate] (self.timestamp as u64));
        bytes.extend_from_slice(tail.as_slice());
        let mut i: usize = 0;
        while i < STATE_LEN
            invariant
                bytes@ == self.spec_encode(),
                bytes@.len() == STATE_LEN,
                i <= STATE_LEN,
                data@.len() == old(data)@.len(),
                old(data)@.len() >= STATE_LEN,
                forall|j: int| 0 <= j < i ==> data@[j] == bytes@[j],
                forall|j: int| i <= j < data@.len() ==> data@[j] == old(data)@[j],
            decreases STATE_LEN - i,
        {
            data.set(i, bytes[i]);
            i = i + 1;
        }
        assert(data@ =~= self.spec_write(old(data)@));
    }
}

/// Reading back a record written into a large enough buffer gives the record.
pub proof fn lemma_state_round_trip(s: InvokeAccount, data: Seq<u8>)
    requires
        data.len() >= STATE_LEN,
    ensures
        InvokeAccount::spec_decode(s.spec_write(data)) == Some(s),
        s.spec_write(data).len() == data.len(),
{
    lemma_auto_spec_u64_to_from_le_bytes();
    let w = s.spec_write(data);
    assert(w.subrange(0, 8) =~= spec_u64_to_le_bytes(s.count));
    assert(w.subrange(8, 16) =~= spec_u64_to_le_bytes(s.timestamp as u64));
    let t = s.timestamp;
    assert((t as u64) as i64 == t) by (bit_vector);
}

/// A freshly created account's data is zeroed, and reads as a record whose
/// counter and timestamp are both zero.
pub proof fn lemma_zeroed_state(data: Seq<u8>)
    requires
        data.len() >= STATE_LEN,
        forall|i: int| 0 <= i < STATE_LEN ==> data[i] == 0,
    ensures
        InvokeAccount::spec_decode(data) == Some(InvokeAccount { count: 0, timestamp: 0 }),
{
    lemma_auto_spec_u64_to_from_le_bytes();
    spec_u64_to_le_bytes_to_open(0);
    let z: u64 = 0;
    assert((z & 0xff) == 0 && ((z >> 8) & 0xff) == 0 && ((z >> 16) & 0xff) == 0 && ((z >> 24)
        & 0xff) == 0 && ((z >> 32) & 0xff) == 0 && ((z >> 40) & 0xff) == 0 && ((z >> 48) & 0xff)
        == 0 && ((z >> 56) & 0xff) == 0) by (bit_vector)
        requires
            z == 0,
    ;
    assert(data.subrange(0, 8) =~= spec_u64_to_le_bytes(0));
    assert(data.subrange(8, 16) =~= spec_u64_to_le_bytes(0));
}

} // verus!
