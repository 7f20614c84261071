use vstd::prelude::*;
use vstd::bytes::{
    lemma_auto_spec_u16_to_from_le_bytes, lemma_auto_spec_u32_to_from_le_bytes,
    spec_u16_from_le_bytes, spec_u16_to_le_bytes, spec_u32_from_le_bytes, spec_u32_to_le_bytes,
    u16_to_le_bytes, u32_to_le_bytes,
};
use crate::bytes::{append_bytes, copy_range, read_u16_le, read_u32_le};
use crate::error::CustomError;

verus! {

/// Wire tag of `CreateAccount`.
pub const CREATE_ACCOUNT_TAG: u8 = 0;

/// Wire tag of `Invoke`.
pub const INVOKE_TAG: u8 = 1;

/// An instruction understood by the program.
#[derive(Clone, Debug, PartialEq, Eq)]
pub enum CustomInstruction {
    /// Create the account derived from `seeds` and `nonce`, sized to `space` bytes.
    CreateAccount { seeds: Vec<u8>, nonce: u8, space: u16 },
    /// Count one call in the target account's state and stamp it with the current time.
    Invoke,
}

/// Mathematical value of an instruction.
pub enum InstructionModel {
    CreateAccount { seeds: Seq<u8>, nonce: u8, space: u16 },
    Invoke,
}

impl View for CustomInstruction {
    type V = InstructionModel;

    open spec fn view(&self) -> InstructionModel {
        match self {
            CustomInstruction::CreateAccount { seeds, nonce, space } => InstructionModel::CreateAccount {
                seeds: seeds@,
                nonce: *nonce,
                space: *space,
            },
            CustomInstruction::Invoke => InstructionModel::Invoke,
        }
    }
}

/// An instruction has a wire form when its seed length fits the 32-bit length prefix.
pub open spec fn encodable(m: InstructionModel) -> bool {
    match m {
        InstructionModel::CreateAccount { seeds, .. } => seeds.len() <= u32::MAX,
        InstructionModel::Invoke => true,
    }
}

/// Wire form: one tag byte, then for `CreateAccount` the seed bytes behind a
/// little-endian `u32` length, the nonce byte and a little-endian `u16` space.
pub open spec fn spec_encode(m: InstructionModel) -> Seq<u8> {
    match m {
        InstructionModel::CreateAccount { seeds, nonce, space } => seq![CREATE_ACCOUNT_TAG]
            + spec_u32_to_le_bytes(seeds.len() as u32) + seeds + seq![nonce]
            + spec_u16_to_le_bytes(space),
        InstructionModel::Invoke => seq![INVOKE_TAG],
    }
}

/// What a byte string decodes to: `None` for an unknown tag, a truncated
/// field, or bytes left over after the last field.
pub open spec fn spec_decode(b: Seq<u8>) -> Option<InstructionModel> {
    if b.len() == 0 {
        None
    } else if b[0] == CREATE_ACCOUNT_TAG {
        if b.len() < 5 {
            None
        } else {
            let n = spec_u32_from_le_bytes(b.subrange(1, 5)) as int;
            if b.len() != n + 8 {
                None
            } else {
                Some(
                    InstructionModel::CreateAccount {
                        seeds: b.subrange(5, 5 + n),
                        nonce: b[5 + n],
                        space: spec_u16_from_le_bytes(b.subrange(6 + n, 8 + n)),
                    },
                )
            }
        }
    } else if b[0] == INVOKE_TAG && b.len() == 1 {
        Some(InstructionModel::Invoke)
    } else {
        None
    }
}

/// Decoding the wire form of an instruction gives that instruction back.
pub proof fn lemma_round_trip(m: InstructionModel)
    requires
        encodable(m),
    ensures
        spec_decode(spec_encode(m)) == Some(m),
{
    lemma_auto_spec_u32_to_from_le_bytes();
    lemma_auto_spec_u16_to_from_le_bytes();
    match m {
        InstructionModel::CreateAccount { seeds, nonce, space } => {
            let b = spec_encode(m);
            let n = seeds.len() as int;
            let len_bytes = spec_u32_to_le_bytes(n as u32);
            let space_bytes = spec_u16_to_le_bytes(space);
            assert(b.subrange(1, 5) =~= len_bytes);
            assert(b.subrange(5, 5 + n) =~= seeds);
            assert(b.subrange(6 + n, 8 + n) =~= space_bytes);
            assert(b[5 + n] == nonce);
        },
        InstructionModel::Invoke => {},
    }
}

/// The wire form is the only encoding: whatever decodes is the wire form of its result.
pub proof fn lemma_decode_canonical(b: Seq<u8>)
    requires
        spec_decode(b) is Some,
    ensures
        encodable(spec_decode(b)->0),
        spec_encode(spec_decode(b)->0) == b,
{
    lemma_auto_spec_u32_to_from_le_bytes();
    lemma_auto_spec_u16_to_from_le_bytes();
    if b[0] == CREATE_ACCOUNT_TAG {
        let n = spec_u32_from_le_bytes(b.subrange(1, 5)) as int;
        assert(spec_u32_to_le_bytes(spec_u32_from_le_bytes(b.subrange(1, 5))) == b.subrange(1, 5));
        assert(spec_u16_to_le_bytes(spec_u16_from_le_bytes(b.subrange(6 + n, 8 + n))) == b.subrange(
            6 + n,
            8 + n,
        ));
        assert(spec_encode(spec_decode(b)->0) =~= b);
    } else {
        assert(spec_encode(spec_decode(b)->0) =~= b);
    }
}

/// A byte string whose first byte is no known tag does not decode.
pub proof fn lemma_unknown_tag_rejected(b: Seq<u8>)
    requires
        b.len() > 0,
        b[0] != CREATE_ACCOUNT_TAG,
        b[0] != INVOKE_TAG,
    ensures
        spec_decode(b) is None,
{
}

impl CustomInstruction {
    /// Serializes the instruction into its wire form.
    pub fn encode(&self) -> (r: Vec<u8>)
        requires
            encodable(self@),
        ensures
            r@ == spec_encode(self@),
    {
        match self {
            CustomInstruction::CreateAccount { seeds, nonce, space } => {
                let mut r: Vec<u8> = Vec::new();
                r.push(CREATE_ACCOUNT_TAG);
                let len_bytes = u32_to_le_bytes(seeds.len() as u32);
                append_bytes(&mut r, len_bytes.as_slice());
                append_bytes(&mut r, seeds.as_slice());
                r.push(*nonce);
                let space_bytes = u16_to_le_bytes(*space);
                append_bytes(&mut r, space_bytes.as_slice());
                assert(r@ =~= spec_encode(self@));
                r
            },
            CustomInstruction::Invoke => {
                let mut r: Vec<u8> = Vec::new();
                r.push(INVOKE_TAG);
                assert(r@ =~= spec_encode(self@));
                r
            },
        }
    }

    /// Parses an instruction from its wire form; fails with
    /// `MalformedInstruction` exactly when the bytes are no wire form.
    pub fn decode(input: &[u8]) -> (r: Result<CustomInstruction, CustomError>)
        ensures
            match spec_decode(input@) {
                Some(m) => r matches Ok(x) && x@ == m,
                None => r == Err::<CustomInstruction, CustomError>(CustomError::MalformedInstruction),
            },
    {
        let len: usize = input.len();
        if len == 0 {
            return Err(CustomError::MalformedInstruction);
        }
        let tag: u8 = input[0];
        if tag == CREATE_ACCOUNT_TAG {
            if len < 5 {
                return Err(CustomError::MalformedInstruction);
            }
            let n: u32 = read_u32_le(input, 1);
            if (n as usize) > len || len - (n as usize) != 8 {
                return Err(CustomError::MalformedInstruction);
            }
            let n: usize = n as usize;
            let seeds = copy_range(input, 5, n);
            let nonce: u8 = input[5 + n];
            let space: u16 = read_u16_le(input, 6 + n);
            Ok(CustomInstruction::CreateAccount { seeds, nonce, space })
        } else if tag == INVOKE_TAG && len == 1 {
            Ok(CustomInstruction::Invoke)
        } else {
            Err(CustomError::MalformedInstruction)
        }
    }
}

} // verus!
