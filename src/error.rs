use vstd::prelude::*;

verus! {

/// Errors that processing an instruction can end in.
#[derive(Clone, Copy, Debug, PartialEq, Eq, Structural)]
pub enum CustomError {
    /// The instruction bytes name no instruction the program handles.
    InvalidInstruction,
    /// The instruction bytes have an unknown tag or a truncated field.
    MalformedInstruction,
    /// The account list has the wrong number of entries.
    AccountMissing,
    /// The account data is too small to hold the state record.
    SchemaMismatch,
    /// The seed bundle does not derive the target account's address.
    AuthorizationMismatch,
    /// The creation service refused to create the account.
    CreationFailed,
}

impl CustomError {
    /// The numeric code under which the host reports this error.
    pub open spec fn spec_code(self) -> u32 {
        match self {
            CustomError::InvalidInstruction => 0,
            CustomError::MalformedInstruction => 1,
            CustomError::AccountMissing => 2,
            CustomError::SchemaMismatch => 3,
            CustomError::AuthorizationMismatch => 4,
            CustomError::CreationFailed => 5,
        }
    }

    /// The numeric code under which the host reports this error.
    pub fn code(&self) -> (r: u32)
        ensures
            r == self.spec_code(),
    {
        match self {
            CustomError::InvalidInstruction => 0,
            CustomError::MalformedInstruction => 1,
            CustomError::AccountMissing => 2,
            CustomError::SchemaMismatch => 3,
            CustomError::AuthorizationMismatch => 4,
            CustomError::CreationFailed => 5,
        }
    }

    /// The error with numeric code `code`, if there is one.
    pub fn from_code(code: u32) -> (r: Option<CustomError>)
        ensures
            match r {
                Some(e) => e.spec_code() == code,
                None => code > 5,
            },
    {
        match code {
            0 => Some(CustomError::InvalidInstruction),
            1 => Some(CustomError::MalformedInstruction),
            2 => Some(CustomError::AccountMissing),
            3 => Some(CustomError::SchemaMismatch),
            4 => Some(CustomError::AuthorizationMismatch),
            5 => Some(CustomError::CreationFailed),
            _ => None,
        }
    }
}

} // verus!
