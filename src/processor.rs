use vstd::prelude::*;
use crate::account::{lemma_state_round_trip, InvokeAccount};
use crate::address::{authorize, authorizes};
use crate::error::CustomError;
use crate::instruction::{spec_decode, CustomInstruction, InstructionModel};

verus! {

/// Number of accounts that `CreateAccount` takes: payer, target, rent-info
/// provider and creation service, in that order.
pub const CREATE_ACCOUNT_ARITY: usize = 4;

/// Number of accounts that `Invoke` takes: the target.
pub const INVOKE_ARITY: usize = 1;

/// An account handed to an instruction: its address and its data buffer.
pub struct AccountRef {
    pub key: [u8; 32],
    pub data: Vec<u8>,
}

/// What the creation service is asked to do: create `target`, funded by
/// `payer`, sized to `space` bytes and owned by `owner`, signed for by the
/// seed bundle `seeds` followed by `nonce`.
pub struct CreateAccountRequest {
    pub payer: [u8; 32],
    pub target: [u8; 32],
    pub space: u16,
    pub owner: [u8; 32],
    pub seeds: Vec<u8>,
    pub nonce: u8,
}

/// The counter after one more invocation; it wraps at the top of its range.
pub open spec fn next_count(count: u64) -> u64 {
    if count == u64::MAX {
        0
    } else {
        (count + 1) as u64
    }
}

/// The account data after one invocation at time `now`, or `None` where the
/// data holds no state record.
pub open spec fn spec_invoke(data: Seq<u8>, now: i64) -> Option<Seq<u8>> {
    match InvokeAccount::spec_decode(data) {
        Some(s) => Some(InvokeAccount { count: next_count(s.count), timestamp: now }.spec_write(data)),
        None => None,
    }
}

/// The account data after invocations at each of `times`, in order.
pub open spec fn spec_run(data: Seq<u8>, times: Seq<i64>) -> Option<Seq<u8>>
    decreases times.len(),
{
    if times.len() == 0 {
        Some(data)
    } else {
        match spec_run(data, times.drop_last()) {
            Some(d) => spec_invoke(d, times.last()),
            None => None,
        }
    }
}

/// Whether `r` is the request that `CreateAccount` issues for these inputs.
pub open spec fn is_create_request(
    r: CreateAccountRequest,
    program_id: Seq<u8>,
    accounts: Seq<AccountRef>,
    seeds: Seq<u8>,
    nonce: u8,
    space: u16,
) -> bool {
    &&& r.payer@ == accounts[0].key@
    &&& r.target@ == accounts[1].key@
    &&& r.space == space
    &&& r.owner@ == program_id
    &&& r.seeds@ == seeds
    &&& r.nonce == nonce
}

/// The result that `CreateAccount` owes for these inputs, with `req` standing
/// for the request it issues.
pub open spec fn create_account_outcome(
    program_id: Seq<u8>,
    accounts: Seq<AccountRef>,
    seeds: Seq<u8>,
    nonce: u8,
    space: u16,
    r: Result<CreateAccountRequest, CustomError>,
) -> bool {
    if accounts.len() != CREATE_ACCOUNT_ARITY {
        r == Err::<CreateAccountRequest, CustomError>(CustomError::AccountMissing)
    } else if !authorizes(program_id, seeds, nonce, accounts[1].key@) {
        r == Err::<CreateAccountRequest, CustomError>(CustomError::AuthorizationMismatch)
    } else {
        r matches Ok(req) && is_create_request(req, program_id, accounts, seeds, nonce, space)
    }
}

/// The result that `Invoke` owes, and the accounts it leaves.
pub open spec fn invoke_outcome(
    old_accounts: Seq<AccountRef>,
    new_accounts: Seq<AccountRef>,
    now: i64,
    r: Result<(), CustomError>,
) -> bool {
    if old_accounts.len() != INVOKE_ARITY {
        &&& r == Err::<(), CustomError>(CustomError::AccountMissing)
        &&& new_accounts == old_accounts
    } else {
        match spec_invoke(old_accounts[0].data@, now) {
            Some(d) => {
                &&& r is Ok
                &&& new_accounts.len() == 1
                &&& new_accounts[0].key == old_accounts[0].key
                &&& new_accounts[0].data@ == d
            },
            None => {
                &&& r == Err::<(), CustomError>(CustomError::SchemaMismatch)
                &&& new_accounts == old_accounts
            },
        }
    }
}

/// The result that processing `input` owes, and the accounts it leaves.
pub open spec fn process_outcome(
    program_id: Seq<u8>,
    old_accounts: Seq<AccountRef>,
    new_accounts: Seq<AccountRef>,
    input: Seq<u8>,
    now: i64,
    r: Result<Option<CreateAccountRequest>, CustomError>,
) -> bool {
    match spec_decode(input) {
        None => {
            &&& r == Err::<Option<CreateAccountRequest>, CustomError>(CustomError::InvalidInstruction)
            &&& new_accounts == old_accounts
        },
        Some(InstructionModel::CreateAccount { seeds, nonce, space }) => {
            &&& new_accounts == old_accounts
            &&& match r {
                Ok(Some(req)) => create_account_outcome(
                    program_id,
                    old_accounts,
                    seeds,
                    nonce,
                    space,
                    Ok(req),
                ),
                Ok(None) => false,
                Err(e) => create_account_outcome(program_id, old_accounts, seeds, nonce, space, Err(e)),
            }
        },
        Some(InstructionModel::Invoke) => {
            &&& !(r matches Ok(Some(_)))
            &&& invoke_outcome(
                old_accounts,
                new_accounts,
                now,
                match r {
                    Ok(_) => Ok::<(), CustomError>(()),
                    Err(e) => Err(e),
                },
            )
        },
    }
}

/// Starting from a record whose counter is zero, `k` invocations leave the
/// counter at `k` and the timestamp at the time of the last one.
pub proof fn lemma_counter_counts(data: Seq<u8>, times: Seq<i64>)
    requires
        InvokeAccount::spec_decode(data) is Some,
        InvokeAccount::spec_decode(data)->0.count == 0,
        times.len() <= u64::MAX,
    ensures
        spec_run(data, times) is Some,
        spec_run(data, times)->0.len() == data.len(),
        InvokeAccount::spec_decode(spec_run(data, times)->0) is Some,
        InvokeAccount::spec_decode(spec_run(data, times)->0)->0.count == times.len(),
        times.len() > 0 ==> InvokeAccount::spec_decode(spec_run(data, times)->0)->0.timestamp
            == times.last(),
    decreases times.len(),
{
    if times.len() > 0 {
        lemma_counter_counts(data, times.drop_last());
        let d = spec_run(data, times.drop_last())->0;
        let s = InvokeAccount::spec_decode(d)->0;
        lemma_state_round_trip(InvokeAccount { count: next_count(s.count), timestamp: times.last() }, d);
    }
}

/// With a clock that never goes back, each invocation leaves a timestamp no
/// smaller than the one before it.
pub proof fn lemma_timestamps_non_decreasing(data: Seq<u8>, times: Seq<i64>, i: int, j: int)
    requires
        InvokeAccount::spec_decode(data) is Some,
        InvokeAccount::spec_decode(data)->0.count == 0,
        times.len() <= u64::MAX,
        forall|a: int, b: int| 0 <= a <= b < times.len() ==> times[a] <= times[b],
        1 <= i <= j <= times.len(),
    ensures
        InvokeAccount::spec_decode(spec_run(data, times.take(i))->0)->0.timestamp
            <= InvokeAccount::spec_decode(spec_run(data, times.take(j))->0)->0.timestamp,
{
    lemma_counter_counts(data, times.take(i));
    lemma_counter_counts(data, times.take(j));
    assert(times.take(i).last() == times[i - 1]);
    assert(times.take(j).last() == times[j - 1]);
}

/// Routes instructions to their handlers.
pub struct Processor {}

impl Processor {
    /// Checks the accounts and the seed bundle of a `CreateAccount`
    /// instruction and returns the request for the creation service.
    pub fn process_create_account(
        program_id: &[u8; 32],
        accounts: &Vec<AccountRef>,
        seeds: Vec<u8>,
        nonce: u8,
        space: u16,
    ) -> (r: Result<CreateAccountRequest, CustomError>)
        ensures
            create_account_outcome(program_id@, accounts@, seeds@, nonce, space, r),
    {
        if accounts.len() != CREATE_ACCOUNT_ARITY {
            return Err(CustomError::AccountMissing);
        }
        let payer: &AccountRef = &accounts[0];
        let target: &AccountRef = &accounts[1];
        match authorize(program_id, seeds.as_slice(), nonce, &target.key) {
            Ok(()) => {},
            Err(e) => {
                return Err(e);
            },
        }
        Ok(CreateAccountRequest {
            payer: payer.key,
            target: target.key,
            space,
            owner: *program_id,
            seeds,
            nonce,
        })
    }

    /// Counts one invocation in the target account's state and stamps it
    /// with `now`, writing the record back in place.
    pub fn process_invoke(accounts: &mut Vec<AccountRef>, now: i64) -> (r: Result<(), CustomError>)
        ensures
            invoke_outcome(old(accounts)@, final(accounts)@, now, r),
    {
        if accounts.len() != INVOKE_ARITY {
            return Err(CustomError::AccountMissing);
        }
        let state = match InvokeAccount::unpack(accounts[0].data.as_slice()) {
            Ok(s) => s,
            Err(e) => {
                return Err(e);
            },
        };
        let next = InvokeAccount { count: state.count.wrapping_add(1), timestamp: now };
        next.pack_into(&mut accounts[0].data);
        Ok(())
    }

    /// Decodes `input` and runs its handler. A `CreateAccount` returns the
    /// request for the creation service; an `Invoke` updates the target
    /// account in place. Bytes that do not decode give `InvalidInstruction`
    /// and leave every account as it was.
    pub fn process(
        program_id: &[u8; 32],
        accounts: &mut Vec<AccountRef>,
        input: &[u8],
        now: i64,
    ) -> (r: Result<Option<CreateAccountRequest>, CustomError>)
        ensures
            process_outcome(program_id@, old(accounts)@, final(accounts)@, input@, now, r),
    {
        let instruction = match CustomInstruction::decode(input) {
            Ok(i) => i,
            Err(_) => {
                return Err(CustomError::InvalidInstruction);
            },
        };
        match instruction {
            CustomInstruction::CreateAccount { seeds, nonce, space } => {
                match Self::process_create_account(program_id, accounts, seeds, nonce, space) {
                    Ok(req) => Ok(Some(req)),
                    Err(e) => Err(e),
                }
            },
            CustomInstruction::Invoke => {
                match Self::process_invoke(accounts, now) {
                    Ok(()) => Ok(None),
                    Err(e) => Err(e),
                }
            },
        }
    }
}

} // verus!
