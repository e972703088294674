//! The authorized-buffer provisioning protocol.
//!
//! One provisioning call validates the calling context, re-derives the
//! buffer's expected address and compares it to the target account, and then
//! describes the storage allocation that the system program must perform.
//! Once the storage exists, the initial header is written into its first 9
//! bytes; everything beyond the header is payload, untouched here. Every
//! deviation from this path is a hard failure of the whole call, reported as
//! one named error and never retried locally.

use crate::error::EchoError;
use crate::pda::{derived_auth_buffer, on_curve, system_program_id, system_program_id_bytes};
use crate::state::{spec_encode_auth_header, AuthorizedBufferHeader, AUTH_BUFF_HEADER_SIZE};
use vstd::prelude::*;

verus! {

/// What one provisioning call reads of an account handle: its address and
/// the writable and signer flags of the caller's invocation envelope.
#[derive(Clone, Copy, Debug, PartialEq, Eq)]
pub struct AccountView {
    /// The account's 32-byte address.
    pub key: [u8; 32],
    /// Whether the caller marked the account writable.
    pub is_writable: bool,
    /// Whether the account carries a verified signature for this invocation.
    pub is_signer: bool,
}

/// The three account handles of a provisioning call, in the order the caller
/// passes them: the buffer account to provision, the authority that signs
/// and funds it, and the system program that allocates storage.
#[derive(Clone, Copy, Debug, PartialEq, Eq)]
pub struct Context {
    pub authorized_buffer: AccountView,
    pub authority: AccountView,
    pub system_program: AccountView,
}

/// Whether the three leading account handles pass the ordered context
/// checks: the buffer writable, the authority a signer, and the system
/// program the real one.
pub open spec fn context_checks_pass(accounts: Seq<AccountView>) -> bool {
    &&& accounts[0].is_writable
    &&& accounts[1].is_signer
    &&& accounts[2].key@ == system_program_id()
}

/// Compare two addresses byte for byte.
fn keys_equal(a: &[u8; 32], b: &[u8; 32]) -> (r: bool)
    ensures
        r == (a@ == b@),
{
    let mut i: usize = 0;
    while i < 32
        invariant
            0 <= i <= 32,
            forall|j: int| 0 <= j < i ==> a@[j] == b@[j],
        decreases 32 - i,
    {
        if a[i] != b[i] {
            assert(a@[i as int] != b@[i as int]);
            return false;
        }
        i += 1;
    }
    proof {
        assert(a@ =~= b@);
    }
    true
}

impl Context {
    /// Read the three account handles of a provisioning call out of the
    /// caller's ordered account list and run the first three checks, failing
    /// fast with the first violated one: the buffer account must be
    /// writable, the authority must have signed, and the allocation service
    /// must be the real system program.
    pub fn parse(accounts: &Vec<AccountView>) -> (r: Result<Context, EchoError>)
        requires
            accounts@.len() >= 3,
        ensures
            !accounts@[0].is_writable ==> r == Err::<Context, EchoError>(
                EchoError::AccountMustBeWritable,
            ),
            accounts@[0].is_writable && !accounts@[1].is_signer ==> r == Err::<
                Context,
                EchoError,
            >(EchoError::MissingRequiredSignature),
            accounts@[0].is_writable && accounts@[1].is_signer && accounts@[2].key@
                != system_program_id() ==> r == Err::<Context, EchoError>(
                EchoError::InvalidProgramAddress,
            ),
            context_checks_pass(accounts@) ==> match r {
                Ok(ctx) => {
                    &&& ctx.authorized_buffer == accounts@[0]
                    &&& ctx.authority == accounts@[1]
                    &&& ctx.system_program == accounts@[2]
                },
                Err(_) => false,
            },
    {
        let ctx = Context {
            authorized_buffer: accounts[0],
            authority: accounts[1],
            system_program: accounts[2],
        };

        if !ctx.authorized_buffer.is_writable {
            return Err(EchoError::AccountMustBeWritable);
        }

        if !ctx.authority.is_signer {
            return Err(EchoError::MissingRequiredSignature);
        }

        let system_id = system_program_id_bytes();
        if !keys_equal(&ctx.system_program.key, &system_id) {
            return Err(EchoError::InvalidProgramAddress);
        }

        Ok(ctx)
    }
}

/// Everything the system program needs in order to allocate the buffer's
/// storage, plus the derivation data that authorizes the request: the
/// validated output of a provisioning call's checks.
#[derive(Clone, Copy, Debug, PartialEq, Eq)]
pub struct AllocationDirective {
    /// The authority account that signs and funds the allocation.
    pub payer: [u8; 32],
    /// The derived address at which storage is created.
    pub new_address: [u8; 32],
    /// The requested storage size in bytes.
    pub size: usize,
    /// The program identity that will own the new account.
    pub owner: [u8; 32],
    /// The bump value of the derivation, part of the derivation proof.
    pub bump_seed: u8,
    /// The caller-chosen seed of the derivation.
    pub buffer_seed: u64,
}

/// Validate a provisioning call and describe the storage allocation it asks
/// for.
///
/// The checks run in a fixed order, failing fast with the first violation:
/// buffer writability, authority signature, system-program identity,
/// requested size strictly above the 9-byte header, and finally agreement of
/// the target account's address with a fresh derivation. On success the
/// returned directive pins every field of the allocation request; nothing
/// has been allocated yet, and nothing is on a failure.
pub fn process(
    program_id: &[u8; 32],
    accounts: &Vec<AccountView>,
    buffer_seed: u64,
    buffer_size: usize,
) -> (r: Result<AllocationDirective, EchoError>)
    requires
        accounts@.len() >= 3,
    ensures
        !accounts@[0].is_writable ==> r == Err::<AllocationDirective, EchoError>(
            EchoError::AccountMustBeWritable,
        ),
        accounts@[0].is_writable && !accounts@[1].is_signer ==> r == Err::<
            AllocationDirective,
            EchoError,
        >(EchoError::MissingRequiredSignature),
        accounts@[0].is_writable && accounts@[1].is_signer && accounts@[2].key@
            != system_program_id() ==> r == Err::<AllocationDirective, EchoError>(
            EchoError::InvalidProgramAddress,
        ),
        context_checks_pass(accounts@) && buffer_size <= AUTH_BUFF_HEADER_SIZE ==> r == Err::<
            AllocationDirective,
            EchoError,
        >(EchoError::InvalidInstructionInput),
        context_checks_pass(accounts@) && buffer_size > AUTH_BUFF_HEADER_SIZE ==> match derived_auth_buffer(
            program_id@,
            accounts@[1].key@,
            buffer_seed,
        ) {
            Some(p) => if accounts@[0].key@ != p.0 {
                r == Err::<AllocationDirective, EchoError>(EchoError::InvalidAccountAddress)
            } else {
                match r {
                    Ok(d) => {
                        &&& d.payer@ == accounts@[1].key@
                        &&& d.new_address@ == p.0
                        &&& d.size == buffer_size
                        &&& d.owner@ == program_id@
                        &&& d.bump_seed == p.1
                        &&& d.buffer_seed == buffer_seed
                        &&& !on_curve(d.new_address@)
                    },
                    Err(_) => false,
                }
            },
            None => r == Err::<AllocationDirective, EchoError>(EchoError::DefaultError),
        },
{
    let ctx = match Context::parse(accounts) {
        Ok(ctx) => ctx,
        Err(e) => {
            return Err(e);
        },
    };

    if buffer_size <= AUTH_BUFF_HEADER_SIZE {
        return Err(EchoError::InvalidInstructionInput);
    }

    let (pda, bump_seed) = match crate::pda::derive(program_id, &ctx.authority.key, buffer_seed) {
        Ok(p) => p,
        Err(e) => {
            return Err(e);
        },
    };

    if !keys_equal(&ctx.authorized_buffer.key, &pda) {
        return Err(EchoError::InvalidAccountAddress);
    }

    Ok(
        AllocationDirective {
            payer: ctx.authority.key,
            new_address: pda,
            size: buffer_size,
            owner: *program_id,
            bump_seed,
            buffer_seed,
        },
    )
}

/// Write the initial header into freshly allocated buffer storage.
///
/// Only the first 9 bytes change: they become the header's wire form. The
/// payload region and the storage's length stay exactly as they were. The
/// provisioning path guarantees storage strictly larger than the header
/// before this runs.
pub fn write_header(storage: &mut Vec<u8>, header: &AuthorizedBufferHeader)
    requires
        old(storage)@.len() >= AUTH_BUFF_HEADER_SIZE,
    ensures
        final(storage)@.len() == old(storage)@.len(),
        final(storage)@.subrange(0, AUTH_BUFF_HEADER_SIZE as int) == spec_encode_auth_header(
            *header,
        ),
        forall|j: int|
            AUTH_BUFF_HEADER_SIZE <= j < old(storage)@.len() ==> final(storage)@[j] == old(
                storage,
            )@[j],
{
    let bytes = header.encode();
    let ghost orig: Seq<u8> = storage@;
    let mut i: usize = 0;
    while i < AUTH_BUFF_HEADER_SIZE
        invariant
            0 <= i <= AUTH_BUFF_HEADER_SIZE,
            bytes@.len() == AUTH_BUFF_HEADER_SIZE,
            orig.len() >= AUTH_BUFF_HEADER_SIZE,
            storage@.len() == orig.len(),
            forall|j: int| 0 <= j < i ==> storage@[j] == bytes@[j],
            forall|j: int| i <= j < orig.len() ==> storage@[j] == orig[j],
        decreases AUTH_BUFF_HEADER_SIZE - i,
    {
        storage[i] = bytes[i];
        i += 1;
    }
    proof {
        assert(storage@.subrange(0, AUTH_BUFF_HEADER_SIZE as int) =~= bytes@);
    }
}

} // verus!
