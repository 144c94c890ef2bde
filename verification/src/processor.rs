//! The validation chains and state transitions of the four public
//! operations. Each operation runs a fixed, ordered set of checks over a
//! snapshot of the accounts it was handed; the first failing check aborts
//! the whole operation with its specific error and no mutation. On success
//! an operation returns everything the host needs to commit it atomically:
//! the new cell contents, the allocation and mint instructions, and the
//! bumps of the derived addresses the program signs for.

use vstd::prelude::*;
use vstd::utf8::encode_utf8;

use crate::address::{
    comment_seed_views, counter_seed_views, derive_comment_address, derive_counter_address,
    derive_mint_address, derive_mint_authority_address, derive_review_address,
    mint_authority_seed_views, mint_seed_views, review_seed_views, Address,
};
use crate::bytes::{bytes_equal, copy_range};
use crate::error::ReviewError;
use crate::host::{
    associated_token_address, build_create_account, build_initialize_mint, build_mint_to,
    derived_address, find_associated_token_address,
};
use crate::state::{
    comment_discriminator, comment_discriminator_bytes, comment_record_size, counter_discriminator,
    counter_discriminator_bytes, decode_counter, decode_review, encode_comment, encode_counter,
    encode_review, intro_discriminator, intro_discriminator_bytes, review_record_size,
    spec_decode_counter, spec_decode_review, spec_encode_comment, spec_encode_counter,
    spec_encode_review, CommentView, CounterView, ReviewView, StudentIntroComment,
    StudentIntroCommentCounter, StudentIntroState, COUNTER_RECORD_BYTES, MAX_RECORD_BYTES,
};

verus! {

/// Base units per whole token: the mint is initialized with nine decimals.
pub const TOKEN_BASE_UNITS: u64 = 1_000_000_000;

/// Whole tokens minted to an author for a new review, in base units.
pub const REVIEW_REWARD_UNITS: u64 = 10 * TOKEN_BASE_UNITS;

/// Whole tokens minted to a commenter for a new comment, in base units.
pub const COMMENT_REWARD_UNITS: u64 = 5 * TOKEN_BASE_UNITS;

/// Decimal precision of the singleton mint.
pub const TOKEN_DECIMALS: u8 = 9;

/// Byte size of the token subsystem's mint layout.
pub const MINT_CELL_BYTES: u64 = 82;

/// Snapshot of one account as the host handed it to the operation.
pub struct AccountState {
    pub key: Address,
    pub is_signer: bool,
    pub owner: Address,
    pub lamports: u64,
    pub data: Vec<u8>,
}

/// The identities this program was loaded with and the collaborator
/// programs it expects.
pub struct ProgramEnv {
    pub program_id: Address,
    pub system_program: Address,
    pub token_program: Address,
    pub rent_sysvar: Address,
}

impl ProgramEnv {
    /// The environment for a given program identity, with the expected
    /// collaborator identities taken from the platform's constants.
    pub fn gather(program_id: Address) -> (r: ProgramEnv)
        ensures
            r.program_id == program_id,
    {
        ProgramEnv {
            program_id,
            system_program: crate::host::system_program_id(),
            token_program: crate::host::token_program_id(),
            rent_sysvar: crate::host::rent_sysvar_id(),
        }
    }
}

/// The reward collaborators an operation was given: all four must match
/// their canonical or expected identities before anything is minted.
#[derive(Clone, Copy)]
pub struct CollaboratorKeys {
    pub token_mint: Address,
    pub mint_authority: Address,
    pub user_token_account: Address,
    pub token_program: Address,
}

/// A cell is unallocated while it is still owned by the storage allocator
/// and holds no bytes.
pub open spec fn spec_allocated(a: AccountState, system_program: Address) -> bool {
    a.data@.len() > 0 || a.owner@ != system_program@
}

pub fn is_allocated(a: &AccountState, system_program: &Address) -> (r: bool)
    ensures
        r == spec_allocated(*a, *system_program),
{
    a.data.len() > 0 || !a.owner.equals(system_program)
}

/// What a successful create-review commits.
#[verifier::ext_equal]
pub struct CreateReviewPlan {
    pub review_data: Seq<u8>,
    pub counter_data: Seq<u8>,
    pub review_bump: u8,
    pub counter_bump: u8,
    pub mint_authority_bump: u8,
    pub reward_amount: u64,
    pub reward_destination: Seq<u8>,
}

/// The state transition of create-review over a snapshot of its accounts.
pub open spec fn spec_create_review(
    env: ProgramEnv,
    initializer: AccountState,
    review_acct: AccountState,
    counter_acct: AccountState,
    collab: CollaboratorKeys,
    name: Seq<u8>,
    message: Seq<u8>,
    review_deposit: u64,
    counter_deposit: u64,
) -> Result<CreateReviewPlan, ReviewError> {
    if !initializer.is_signer {
        Err(ReviewError::MissingSignature)
    } else if review_record_size(name.len() as int, message.len() as int) > MAX_RECORD_BYTES as int {
        Err(ReviewError::DataTooLarge)
    } else {
        match derived_address(review_seed_views(initializer.key@, name), env.program_id@) {
            None => Err(ReviewError::AddressDerivationExhausted),
            Some((review_key, review_bump)) => if review_acct.key@ != review_key {
                Err(ReviewError::InvalidDerivedAddress)
            } else {
                match derived_address(counter_seed_views(review_key), env.program_id@) {
                    None => Err(ReviewError::AddressDerivationExhausted),
                    Some((counter_key, counter_bump)) => if counter_acct.key@ != counter_key {
                        Err(ReviewError::InvalidDerivedAddress)
                    } else {
                        match derived_address(mint_seed_views(), env.program_id@) {
                            None => Err(ReviewError::AddressDerivationExhausted),
                            Some((mint_key, _)) => if collab.token_mint@ != mint_key {
                                Err(ReviewError::IncorrectCollaboratorIdentity)
                            } else {
                                match derived_address(
                                    mint_authority_seed_views(),
                                    env.program_id@,
                                ) {
                                    None => Err(ReviewError::AddressDerivationExhausted),
                                    Some((auth_key, auth_bump)) => if collab.mint_authority@
                                        != auth_key {
                                        Err(ReviewError::IncorrectCollaboratorIdentity)
                                    } else if collab.user_token_account@
                                        != associated_token_address(
                                        initializer.key@,
                                        collab.token_mint@,
                                    ) {
                                        Err(ReviewError::IncorrectCollaboratorIdentity)
                                    } else if collab.token_program@ != env.token_program@ {
                                        Err(ReviewError::IncorrectCollaboratorIdentity)
                                    } else if spec_allocated(review_acct, env.system_program) {
                                        Err(ReviewError::AlreadyInitialized)
                                    } else if spec_allocated(counter_acct, env.system_program) {
                                        Err(ReviewError::AlreadyInitialized)
                                    } else if initializer.lamports < review_deposit
                                        || initializer.lamports - review_deposit
                                        < counter_deposit {
                                        Err(ReviewError::AllocationFailure)
                                    } else {
                                        Ok(
                                            CreateReviewPlan {
                                                review_data: spec_encode_review(
                                                    ReviewView {
                                                        discriminator: intro_discriminator(),
                                                        is_initialized: true,
                                                        reviewer: initializer.key@,
                                                        name: name,
                                                        message: message,
                                                    },
                                                ),
                                                counter_data: spec_encode_counter(
                                                    CounterView {
                                                        discriminator: counter_discriminator(),
                                                        is_initialized: true,
                                                        counter: 0,
                                                    },
                                                ),
                                                review_bump,
                                                counter_bump,
                                                mint_authority_bump: auth_bump,
                                                reward_amount: REVIEW_REWARD_UNITS,
                                                reward_destination: collab.user_token_account@,
                                            },
                                        )
                                    }
                                }
                            },
                        }
                    },
                }
            },
        }
    }
}

/// Everything the host needs to commit a successful create-review.
#[derive(Debug)]
pub struct CreateReviewOutcome {
    /// Allocates the review cell (payer, target, deposit, size, owner).
    pub create_review_cell: solana_program::instruction::Instruction,
    /// Allocates the counter cell.
    pub create_counter_cell: solana_program::instruction::Instruction,
    /// Mints the author's reward to the associated token account.
    pub mint_reward: solana_program::instruction::Instruction,
    pub review_data: Vec<u8>,
    pub counter_data: Vec<u8>,
    pub review_bump: u8,
    pub counter_bump: u8,
    pub mint_authority_bump: u8,
    pub reward_amount: u64,
    pub reward_destination: Address,
}

impl CreateReviewOutcome {
    pub open spec fn plan(&self) -> CreateReviewPlan {
        CreateReviewPlan {
            review_data: self.review_data@,
            counter_data: self.counter_data@,
            review_bump: self.review_bump,
            counter_bump: self.counter_bump,
            mint_authority_bump: self.mint_authority_bump,
            reward_amount: self.reward_amount,
            reward_destination: self.reward_destination@,
        }
    }
}

/// create-review: validates the author's signature, the byte budget and
/// every supplied address against its derivation, then stages the review
/// cell, the zeroed counter cell and the author's reward.
pub fn create_review(
    env: &ProgramEnv,
    initializer: &AccountState,
    review_acct: &AccountState,
    counter_acct: &AccountState,
    collab: &CollaboratorKeys,
    name: &Vec<u8>,
    message: &Vec<u8>,
    review_deposit: u64,
    counter_deposit: u64,
) -> (r: Result<CreateReviewOutcome, ReviewError>)
    ensures
        match r {
            Ok(o) => spec_create_review(
                *env,
                *initializer,
                *review_acct,
                *counter_acct,
                *collab,
                name@,
                message@,
                review_deposit,
                counter_deposit,
            ) == Ok::<CreateReviewPlan, ReviewError>(o.plan()),
            Err(e) => spec_create_review(
                *env,
                *initializer,
                *review_acct,
                *counter_acct,
                *collab,
                name@,
                message@,
                review_deposit,
                counter_deposit,
            ) == Err::<CreateReviewPlan, ReviewError>(e),
        },
{
    if !initializer.is_signer {
        return Err(ReviewError::MissingSignature);
    }
    if name.len() > MAX_RECORD_BYTES || message.len() > MAX_RECORD_BYTES || 50 + name.len()
        + message.len() > MAX_RECORD_BYTES {
        return Err(ReviewError::DataTooLarge);
    }
    let (review_key, review_bump) = match derive_review_address(
        &env.program_id,
        &initializer.key,
        name,
    ) {
        Some(p) => p,
        None => {
            return Err(ReviewError::AddressDerivationExhausted);
        },
    };
    if !review_acct.key.equals(&review_key) {
        return Err(ReviewError::InvalidDerivedAddress);
    }
    let (counter_key, counter_bump) = match derive_counter_address(&env.program_id, &review_key) {
        Some(p) => p,
        None => {
            return Err(ReviewError::AddressDerivationExhausted);
        },
    };
    if !counter_acct.key.equals(&counter_key) {
        return Err(ReviewError::InvalidDerivedAddress);
    }
    let (mint_key, _mint_bump) = match derive_mint_address(&env.program_id) {
        Some(p) => p,
        None => {
            return Err(ReviewError::AddressDerivationExhausted);
        },
    };
    if !collab.token_mint.equals(&mint_key) {
        return Err(ReviewError::IncorrectCollaboratorIdentity);
    }
    let (auth_key, auth_bump) = match derive_mint_authority_address(&env.program_id) {
        Some(p) => p,
        None => {
            return Err(ReviewError::AddressDerivationExhausted);
        },
    };
    if !collab.mint_authority.equals(&auth_key) {
        return Err(ReviewError::IncorrectCollaboratorIdentity);
    }
    let expected_ata = find_associated_token_address(&initializer.key, &collab.token_mint);
    if !collab.user_token_account.equals(&expected_ata) {
        return Err(ReviewError::IncorrectCollaboratorIdentity);
    }
    if !collab.token_program.equals(&env.token_program) {
        return Err(ReviewError::IncorrectCollaboratorIdentity);
    }
    if is_allocated(review_acct, &env.system_program) {
        return Err(ReviewError::AlreadyInitialized);
    }
    if is_allocated(counter_acct, &env.system_program) {
        return Err(ReviewError::AlreadyInitialized);
    }
    if initializer.lamports < review_deposit || initializer.lamports - review_deposit
        < counter_deposit {
        return Err(ReviewError::AllocationFailure);
    }
    let review_record = StudentIntroState {
        discriminator: intro_discriminator_bytes(),
        is_initialized: true,
        reviewer: initializer.key.to_seed(),
        name: copy_range(name, 0, name.len()),
        message: copy_range(message, 0, message.len()),
    };
    let counter_record = StudentIntroCommentCounter {
        discriminator: counter_discriminator_bytes(),
        is_initialized: true,
        counter: 0,
    };
    proof {
        assert(name@.subrange(0, name@.len() as int) =~= name@);
        assert(message@.subrange(0, message@.len() as int) =~= message@);
    }
    let review_data = encode_review(&review_record);
    let counter_data = encode_counter(&counter_record);
    let outcome = CreateReviewOutcome {
        create_review_cell: build_create_account(
            &initializer.key,
            &review_acct.key,
            review_deposit,
            MAX_RECORD_BYTES as u64,
            &env.program_id,
        ),
        create_counter_cell: build_create_account(
            &initializer.key,
            &counter_acct.key,
            counter_deposit,
            COUNTER_RECORD_BYTES as u64,
            &env.program_id,
        ),
        mint_reward: build_mint_to(
            &collab.token_mint,
            &collab.user_token_account,
            &collab.mint_authority,
            REVIEW_REWARD_UNITS,
        ),
        review_data,
        counter_data,
        review_bump,
        counter_bump,
        mint_authority_bump: auth_bump,
        reward_amount: REVIEW_REWARD_UNITS,
        reward_destination: collab.user_token_account,
    };
    proof {
        let sp = spec_create_review(
            *env,
            *initializer,
            *review_acct,
            *counter_acct,
            *collab,
            name@,
            message@,
            review_deposit,
            counter_deposit,
        );
        assert(review_record@ =~= ReviewView {
            discriminator: intro_discriminator(),
            is_initialized: true,
            reviewer: initializer.key@,
            name: name@,
            message: message@,
        });
        assert(counter_record@ =~= CounterView {
            discriminator: counter_discriminator(),
            is_initialized: true,
            counter: 0,
        });
        assert(sp == Ok::<CreateReviewPlan, ReviewError>(outcome.plan()));
    }
    Ok(outcome)
}

/// What a successful update-review commits: the bytes to write at the
/// start of the existing review cell.
#[verifier::ext_equal]
pub struct UpdateReviewPlan {
    pub new_data: Seq<u8>,
}

/// The state transition of update-review. The cell keeps the address
/// derived from the original name: renaming never migrates storage.
pub open spec fn spec_update_review(
    env: ProgramEnv,
    initializer: AccountState,
    review_acct: AccountState,
    name: Seq<u8>,
    message: Seq<u8>,
) -> Result<UpdateReviewPlan, ReviewError> {
    if review_acct.owner@ != env.program_id@ {
        Err(ReviewError::NotOwnedByProgram)
    } else if !initializer.is_signer {
        Err(ReviewError::MissingSignature)
    } else {
        match spec_decode_review(review_acct.data@) {
            None => Err(ReviewError::Uninitialized),
            Some(stored) => match derived_address(
                review_seed_views(initializer.key@, stored.name),
                env.program_id@,
            ) {
                None => Err(ReviewError::AddressDerivationExhausted),
                Some((review_key, _)) => if review_acct.key@ != review_key {
                    Err(ReviewError::InvalidDerivedAddress)
                } else if !stored.is_initialized || stored.discriminator
                    != intro_discriminator() {
                    Err(ReviewError::Uninitialized)
                } else if review_record_size(name.len() as int, message.len() as int)
                    > MAX_RECORD_BYTES as int {
                    Err(ReviewError::DataTooLarge)
                } else {
                    Ok(
                        UpdateReviewPlan {
                            new_data: spec_encode_review(
                                ReviewView {
                                    discriminator: intro_discriminator(),
                                    is_initialized: true,
                                    reviewer: stored.reviewer,
                                    name: name,
                                    message: message,
                                },
                            ),
                        },
                    )
                },
            },
        }
    }
}

/// Everything the host needs to commit a successful update-review.
#[derive(Debug)]
pub struct UpdateReviewOutcome {
    pub new_data: Vec<u8>,
}

impl UpdateReviewOutcome {
    pub open spec fn plan(&self) -> UpdateReviewPlan {
        UpdateReviewPlan { new_data: self.new_data@ }
    }
}

/// update-review: the cell must be owned by this program, the author must
/// sign, the cell address must match the derivation from the stored name,
/// and the record must already be initialized; the rewritten record must
/// still fit the budget.
pub fn update_review(
    env: &ProgramEnv,
    initializer: &AccountState,
    review_acct: &AccountState,
    name: &Vec<u8>,
    message: &Vec<u8>,
) -> (r: Result<UpdateReviewOutcome, ReviewError>)
    ensures
        match r {
            Ok(o) => spec_update_review(*env, *initializer, *review_acct, name@, message@)
                == Ok::<UpdateReviewPlan, ReviewError>(o.plan()),
            Err(e) => spec_update_review(*env, *initializer, *review_acct, name@, message@)
                == Err::<UpdateReviewPlan, ReviewError>(e),
        },
{
    if !review_acct.owner.equals(&env.program_id) {
        return Err(ReviewError::NotOwnedByProgram);
    }
    if !initializer.is_signer {
        return Err(ReviewError::MissingSignature);
    }
    let stored = match decode_review(&review_acct.data) {
        Some(rec) => rec,
        None => {
            return Err(ReviewError::Uninitialized);
        },
    };
    let (review_key, _bump) = match derive_review_address(
        &env.program_id,
        &initializer.key,
        &stored.name,
    ) {
        Some(p) => p,
        None => {
            return Err(ReviewError::AddressDerivationExhausted);
        },
    };
    if !review_acct.key.equals(&review_key) {
        return Err(ReviewError::InvalidDerivedAddress);
    }
    let expected_disc = intro_discriminator_bytes();
    if !stored.is_initialized || !bytes_equal(&stored.discriminator, &expected_disc) {
        return Err(ReviewError::Uninitialized);
    }
    if name.len() > MAX_RECORD_BYTES || message.len() > MAX_RECORD_BYTES || 50 + name.len()
        + message.len() > MAX_RECORD_BYTES {
        return Err(ReviewError::DataTooLarge);
    }
    let new_record = StudentIntroState {
        discriminator: expected_disc,
        is_initialized: true,
        reviewer: stored.reviewer,
        name: copy_range(name, 0, name.len()),
        message: copy_range(message, 0, message.len()),
    };
    proof {
        assert(name@.subrange(0, name@.len() as int) =~= name@);
        assert(message@.subrange(0, message@.len() as int) =~= message@);
    }
    let new_data = encode_review(&new_record);
    let outcome = UpdateReviewOutcome { new_data };
    proof {
        let sp = spec_update_review(*env, *initializer, *review_acct, name@, message@);
        let stored_view = spec_decode_review(review_acct.data@)->Some_0;
        assert(new_record@ =~= ReviewView {
            discriminator: intro_discriminator(),
            is_initialized: true,
            reviewer: stored_view.reviewer,
            name: name@,
            message: message@,
        });
        assert(sp == Ok::<UpdateReviewPlan, ReviewError>(outcome.plan()));
    }
    Ok(outcome)
}

/// What a successful add-comment commits.
#[verifier::ext_equal]
pub struct AddCommentPlan {
    pub comment_data: Seq<u8>,
    pub counter_data: Seq<u8>,
    pub prior_count: u64,
    pub comment_bump: u8,
    pub mint_authority_bump: u8,
    pub comment_cell_size: u64,
    pub reward_amount: u64,
    pub reward_destination: Seq<u8>,
}

/// The state transition of add-comment: comment `k` of a review always
/// occupies the address derived from counter value `k`, so comments are
/// enumerable by sequential index with no gaps and no reuse.
pub open spec fn spec_add_comment(
    env: ProgramEnv,
    commenter: AccountState,
    review_key: Address,
    counter_acct: AccountState,
    comment_acct: AccountState,
    collab: CollaboratorKeys,
    text: Seq<u8>,
    comment_deposit: u64,
) -> Result<AddCommentPlan, ReviewError> {
    let stored = spec_decode_counter(counter_acct.data@);
    if stored is None {
        Err(ReviewError::Uninitialized)
    } else if !stored->Some_0.is_initialized || stored->Some_0.discriminator
        != counter_discriminator() {
        Err(ReviewError::Uninitialized)
    } else if comment_record_size(text.len() as int) > 0xffff_ffff {
        Err(ReviewError::DataTooLarge)
    } else {
        let k = stored->Some_0.counter;
        match derived_address(comment_seed_views(review_key@, k), env.program_id@) {
            None => Err(ReviewError::AddressDerivationExhausted),
            Some((comment_key, comment_bump)) => if comment_acct.key@ != comment_key {
                Err(ReviewError::InvalidDerivedAddress)
            } else {
                match derived_address(mint_seed_views(), env.program_id@) {
                    None => Err(ReviewError::AddressDerivationExhausted),
                    Some((mint_key, _)) => if collab.token_mint@ != mint_key {
                        Err(ReviewError::IncorrectCollaboratorIdentity)
                    } else {
                        match derived_address(mint_authority_seed_views(), env.program_id@) {
                            None => Err(ReviewError::AddressDerivationExhausted),
                            Some((auth_key, auth_bump)) => if collab.mint_authority@ != auth_key {
                                Err(ReviewError::IncorrectCollaboratorIdentity)
                            } else if collab.user_token_account@ != associated_token_address(
                                commenter.key@,
                                collab.token_mint@,
                            ) {
                                Err(ReviewError::IncorrectCollaboratorIdentity)
                            } else if collab.token_program@ != env.token_program@ {
                                Err(ReviewError::IncorrectCollaboratorIdentity)
                            } else if spec_allocated(comment_acct, env.system_program) {
                                Err(ReviewError::AlreadyInitialized)
                            } else if k == u64::MAX {
                                Err(ReviewError::AllocationFailure)
                            } else if commenter.lamports < comment_deposit {
                                Err(ReviewError::AllocationFailure)
                            } else {
                                Ok(
                                    AddCommentPlan {
                                        comment_data: spec_encode_comment(
                                            CommentView {
                                                discriminator: comment_discriminator(),
                                                is_initialized: true,
                                                review: review_key@,
                                                commenter: commenter.key@,
                                                comment: text,
                                            },
                                        ),
                                        counter_data: spec_encode_counter(
                                            CounterView {
                                                discriminator: counter_discriminator(),
                                                is_initialized: true,
                                                counter: (k + 1) as u64,
                                            },
                                        ),
                                        prior_count: k,
                                        comment_bump,
                                        mint_authority_bump: auth_bump,
                                        comment_cell_size: comment_record_size(text.len() as int) as u64,
                                        reward_amount: COMMENT_REWARD_UNITS,
                                        reward_destination: collab.user_token_account@,
                                    },
                                )
                            },
                        }
                    },
                }
            },
        }
    }
}

/// Everything the host needs to commit a successful add-comment.
#[derive(Debug)]
pub struct AddCommentOutcome {
    /// Allocates the comment cell with its exact byte size.
    pub create_comment_cell: solana_program::instruction::Instruction,
    /// Mints the commenter's reward to the associated token account.
    pub mint_reward: solana_program::instruction::Instruction,
    pub comment_data: Vec<u8>,
    pub counter_data: Vec<u8>,
    pub prior_count: u64,
    pub comment_bump: u8,
    pub mint_authority_bump: u8,
    pub comment_cell_size: u64,
    pub reward_amount: u64,
    pub reward_destination: Address,
}

impl AddCommentOutcome {
    pub open spec fn plan(&self) -> AddCommentPlan {
        AddCommentPlan {
            comment_data: self.comment_data@,
            counter_data: self.counter_data@,
            prior_count: self.prior_count,
            comment_bump: self.comment_bump,
            mint_authority_bump: self.mint_authority_bump,
            comment_cell_size: self.comment_cell_size,
            reward_amount: self.reward_amount,
            reward_destination: self.reward_destination@,
        }
    }
}

/// add-comment: loads the already-initialized counter, requires the
/// supplied comment address to equal the derivation from the counter value
/// before the increment, validates the reward collaborators, then stages
/// the comment cell, the incremented counter and the commenter's reward.
pub fn add_comment(
    env: &ProgramEnv,
    commenter: &AccountState,
    review_key: &Address,
    counter_acct: &AccountState,
    comment_acct: &AccountState,
    collab: &CollaboratorKeys,
    text: &Vec<u8>,
    comment_deposit: u64,
) -> (r: Result<AddCommentOutcome, ReviewError>)
    ensures
        match r {
            Ok(o) => spec_add_comment(
                *env,
                *commenter,
                *review_key,
                *counter_acct,
                *comment_acct,
                *collab,
                text@,
                comment_deposit,
            ) == Ok::<AddCommentPlan, ReviewError>(o.plan()),
            Err(e) => spec_add_comment(
                *env,
                *commenter,
                *review_key,
                *counter_acct,
                *comment_acct,
                *collab,
                text@,
                comment_deposit,
            ) == Err::<AddCommentPlan, ReviewError>(e),
        },
{
    let stored = match decode_counter(&counter_acct.data) {
        Some(rec) => rec,
        None => {
            return Err(ReviewError::Uninitialized);
        },
    };
    let expected_disc = counter_discriminator_bytes();
    if !stored.is_initialized || !bytes_equal(&stored.discriminator, &expected_disc) {
        return Err(ReviewError::Uninitialized);
    }
    if text.len() as u64 > 0xffff_ffffu64 - 80 {
        return Err(ReviewError::DataTooLarge);
    }
    let k = stored.counter;
    let (comment_key, comment_bump) = match derive_comment_address(
        &env.program_id,
        review_key,
        k,
    ) {
        Some(p) => p,
        None => {
            return Err(ReviewError::AddressDerivationExhausted);
        },
    };
    if !comment_acct.key.equals(&comment_key) {
        return Err(ReviewError::InvalidDerivedAddress);
    }
    let (mint_key, _mint_bump) = match derive_mint_address(&env.program_id) {
        Some(p) => p,
        None => {
            return Err(ReviewError::AddressDerivationExhausted);
        },
    };
    if !collab.token_mint.equals(&mint_key) {
        return Err(ReviewError::IncorrectCollaboratorIdentity);
    }
    let (auth_key, auth_bump) = match derive_mint_authority_address(&env.program_id) {
        Some(p) => p,
        None => {
            return Err(ReviewError::AddressDerivationExhausted);
        },
    };
    if !collab.mint_authority.equals(&auth_key) {
        return Err(ReviewError::IncorrectCollaboratorIdentity);
    }
    let expected_ata = find_associated_token_address(&commenter.key, &collab.token_mint);
    if !collab.user_token_account.equals(&expected_ata) {
        return Err(ReviewError::IncorrectCollaboratorIdentity);
    }
    if !collab.token_program.equals(&env.token_program) {
        return Err(ReviewError::IncorrectCollaboratorIdentity);
    }
    if is_allocated(comment_acct, &env.system_program) {
        return Err(ReviewError::AlreadyInitialized);
    }
    if k == u64::MAX {
        return Err(ReviewError::AllocationFailure);
    }
    if commenter.lamports < comment_deposit {
        return Err(ReviewError::AllocationFailure);
    }
    let comment_record = StudentIntroComment {
        discriminator: comment_discriminator_bytes(),
        is_initialized: true,
        review: review_key.to_seed(),
        commenter: commenter.key.to_seed(),
        comment: copy_range(text, 0, text.len()),
    };
    let counter_record = StudentIntroCommentCounter {
        discriminator: expected_disc,
        is_initialized: true,
        counter: k + 1,
    };
    proof {
        assert(text@.subrange(0, text@.len() as int) =~= text@);
    }
    let comment_data = encode_comment(&comment_record);
    let counter_data = encode_counter(&counter_record);
    let cell_size: u64 = 80 + text.len() as u64;
    let outcome = AddCommentOutcome {
        create_comment_cell: build_create_account(
            &commenter.key,
            &comment_acct.key,
            comment_deposit,
            cell_size,
            &env.program_id,
        ),
        mint_reward: build_mint_to(
            &collab.token_mint,
            &collab.user_token_account,
            &collab.mint_authority,
            COMMENT_REWARD_UNITS,
        ),
        comment_data,
        counter_data,
        prior_count: k,
        comment_bump,
        mint_authority_bump: auth_bump,
        comment_cell_size: cell_size,
        reward_amount: COMMENT_REWARD_UNITS,
        reward_destination: collab.user_token_account,
    };
    proof {
        let sp = spec_add_comment(
            *env,
            *commenter,
            *review_key,
            *counter_acct,
            *comment_acct,
            *collab,
            text@,
            comment_deposit,
        );
        assert(comment_record@ =~= CommentView {
            discriminator: comment_discriminator(),
            is_initialized: true,
            review: review_key@,
            commenter: commenter.key@,
            comment: text@,
        });
        assert(counter_record@ =~= CounterView {
            discriminator: counter_discriminator(),
            is_initialized: true,
            counter: (k + 1) as u64,
        });
        assert(sp == Ok::<AddCommentPlan, ReviewError>(outcome.plan()));
    }
    Ok(outcome)
}

/// What a successful initialize-mint commits.
#[verifier::ext_equal]
pub struct InitializeMintPlan {
    pub mint_bump: u8,
    pub mint_authority_bump: u8,
    pub decimals: u8,
    pub mint_cell_size: u64,
}

/// The state transition of initialize-mint: the singleton mint cell is
/// created once, sized for the token subsystem's mint layout, with the
/// derived keyless authority and no freeze authority.
pub open spec fn spec_initialize_mint(
    env: ProgramEnv,
    initializer: AccountState,
    mint_acct: AccountState,
    mint_authority: Address,
    system_program: Address,
    token_program: Address,
    rent_sysvar: Address,
    mint_deposit: u64,
) -> Result<InitializeMintPlan, ReviewError> {
    match derived_address(mint_seed_views(), env.program_id@) {
        None => Err(ReviewError::AddressDerivationExhausted),
        Some((mint_key, mint_bump)) => if mint_acct.key@ != mint_key {
            Err(ReviewError::IncorrectCollaboratorIdentity)
        } else {
            match derived_address(mint_authority_seed_views(), env.program_id@) {
                None => Err(ReviewError::AddressDerivationExhausted),
                Some((auth_key, auth_bump)) => if mint_authority@ != auth_key {
                    Err(ReviewError::IncorrectCollaboratorIdentity)
                } else if token_program@ != env.token_program@ {
                    Err(ReviewError::IncorrectCollaboratorIdentity)
                } else if system_program@ != env.system_program@ {
                    Err(ReviewError::IncorrectCollaboratorIdentity)
                } else if rent_sysvar@ != env.rent_sysvar@ {
                    Err(ReviewError::IncorrectCollaboratorIdentity)
                } else if spec_allocated(mint_acct, env.system_program) {
                    Err(ReviewError::AlreadyInitialized)
                } else if initializer.lamports < mint_deposit {
                    Err(ReviewError::AllocationFailure)
                } else {
                    Ok(
                        InitializeMintPlan {
                            mint_bump,
                            mint_authority_bump: auth_bump,
                            decimals: TOKEN_DECIMALS,
                            mint_cell_size: MINT_CELL_BYTES,
                        },
                    )
                },
            }
        },
    }
}

/// Everything the host needs to commit a successful initialize-mint.
#[derive(Debug)]
pub struct InitializeMintOutcome {
    /// Allocates the mint cell, owned by the token program.
    pub create_mint_cell: solana_program::instruction::Instruction,
    /// Initializes the mint with the derived authority, no freeze
    /// authority, and the fixed decimal precision.
    pub initialize_mint: solana_program::instruction::Instruction,
    pub mint_bump: u8,
    pub mint_authority_bump: u8,
    pub decimals: u8,
    pub mint_cell_size: u64,
}

impl InitializeMintOutcome {
    pub open spec fn plan(&self) -> InitializeMintPlan {
        InitializeMintPlan {
            mint_bump: self.mint_bump,
            mint_authority_bump: self.mint_authority_bump,
            decimals: self.decimals,
            mint_cell_size: self.mint_cell_size,
        }
    }
}

/// initialize-mint: verifies the supplied mint, authority, token program,
/// storage allocator and rent sysvar identities against their canonical or
/// expected values, then stages the mint cell and its initialization.
pub fn initialize_mint(
    env: &ProgramEnv,
    initializer: &AccountState,
    mint_acct: &AccountState,
    mint_authority: &Address,
    system_program: &Address,
    token_program: &Address,
    rent_sysvar: &Address,
    mint_deposit: u64,
) -> (r: Result<InitializeMintOutcome, ReviewError>)
    ensures
        match r {
            Ok(o) => spec_initialize_mint(
                *env,
                *initializer,
                *mint_acct,
                *mint_authority,
                *system_program,
                *token_program,
                *rent_sysvar,
                mint_deposit,
            ) == Ok::<InitializeMintPlan, ReviewError>(o.plan()),
            Err(e) => spec_initialize_mint(
                *env,
                *initializer,
                *mint_acct,
                *mint_authority,
                *system_program,
                *token_program,
                *rent_sysvar,
                mint_deposit,
            ) == Err::<InitializeMintPlan, ReviewError>(e),
        },
{
    let (mint_key, mint_bump) = match derive_mint_address(&env.program_id) {
        Some(p) => p,
        None => {
            return Err(ReviewError::AddressDerivationExhausted);
        },
    };
    if !mint_acct.key.equals(&mint_key) {
        return Err(ReviewError::IncorrectCollaboratorIdentity);
    }
    let (auth_key, auth_bump) = match derive_mint_authority_address(&env.program_id) {
        Some(p) => p,
        None => {
            return Err(ReviewError::AddressDerivationExhausted);
        },
    };
    if !mint_authority.equals(&auth_key) {
        return Err(ReviewError::IncorrectCollaboratorIdentity);
    }
    if !token_program.equals(&env.token_program) {
        return Err(ReviewError::IncorrectCollaboratorIdentity);
    }
    if !system_program.equals(&env.system_program) {
        return Err(ReviewError::IncorrectCollaboratorIdentity);
    }
    if !rent_sysvar.equals(&env.rent_sysvar) {
        return Err(ReviewError::IncorrectCollaboratorIdentity);
    }
    if is_allocated(mint_acct, &env.system_program) {
        return Err(ReviewError::AlreadyInitialized);
    }
    if initializer.lamports < mint_deposit {
        return Err(ReviewError::AllocationFailure);
    }
    let outcome = InitializeMintOutcome {
        create_mint_cell: build_create_account(
            &initializer.key,
            &mint_acct.key,
            mint_deposit,
            MINT_CELL_BYTES,
            token_program,
        ),
        initialize_mint: build_initialize_mint(
            &mint_acct.key,
            mint_authority,
            None,
            TOKEN_DECIMALS,
        ),
        mint_bump,
        mint_authority_bump: auth_bump,
        decimals: TOKEN_DECIMALS,
        mint_cell_size: MINT_CELL_BYTES,
    };
    Ok(outcome)
}

/// create-review with the deposits taken from the host's rent sysvar. When
/// the sysvar cannot be read the deposit is unknown and the operation fails
/// as an allocation failure.
pub fn add_student_intro(
    env: &ProgramEnv,
    initializer: &AccountState,
    review_acct: &AccountState,
    counter_acct: &AccountState,
    collab: &CollaboratorKeys,
    name: &String,
    message: &String,
) -> (r: Result<CreateReviewOutcome, ReviewError>)
    ensures
        match r {
            Ok(o) => exists|d1: u64, d2: u64|
                spec_create_review(
                    *env,
                    *initializer,
                    *review_acct,
                    *counter_acct,
                    *collab,
                    encode_utf8(name@),
                    encode_utf8(message@),
                    d1,
                    d2,
                ) == Ok::<CreateReviewPlan, ReviewError>(o.plan()),
            Err(e) => e == ReviewError::AllocationFailure || exists|d1: u64, d2: u64|
                spec_create_review(
                    *env,
                    *initializer,
                    *review_acct,
                    *counter_acct,
                    *collab,
                    encode_utf8(name@),
                    encode_utf8(message@),
                    d1,
                    d2,
                ) == Err::<CreateReviewPlan, ReviewError>(e),
        },
{
    let name_bytes = vstd::slice::slice_to_vec(name.as_str().as_bytes());
    let message_bytes = vstd::slice::slice_to_vec(message.as_str().as_bytes());
    let rent = match crate::host::fetch_rent() {
        Some(rent) => rent,
        None => {
            return Err(ReviewError::AllocationFailure);
        },
    };
    let review_deposit = crate::host::rent_minimum_balance(&rent, MAX_RECORD_BYTES as u64);
    let counter_deposit = crate::host::rent_minimum_balance(&rent, COUNTER_RECORD_BYTES as u64);
    let r = create_review(
        env,
        initializer,
        review_acct,
        counter_acct,
        collab,
        &name_bytes,
        &message_bytes,
        review_deposit,
        counter_deposit,
    );
    proof {
        assert(name_bytes@ == encode_utf8(name@));
        assert(message_bytes@ == encode_utf8(message@));
    }
    r
}

/// update-review on string arguments; it reads no sysvar and allocates
/// nothing, so its contract is exact.
pub fn update_student_intro(
    env: &ProgramEnv,
    initializer: &AccountState,
    review_acct: &AccountState,
    name: &String,
    message: &String,
) -> (r: Result<UpdateReviewOutcome, ReviewError>)
    ensures
        match r {
            Ok(o) => spec_update_review(
                *env,
                *initializer,
                *review_acct,
                encode_utf8(name@),
                encode_utf8(message@),
            ) == Ok::<UpdateReviewPlan, ReviewError>(o.plan()),
            Err(e) => spec_update_review(
                *env,
                *initializer,
                *review_acct,
                encode_utf8(name@),
                encode_utf8(message@),
            ) == Err::<UpdateReviewPlan, ReviewError>(e),
        },
{
    let name_bytes = vstd::slice::slice_to_vec(name.as_str().as_bytes());
    let message_bytes = vstd::slice::slice_to_vec(message.as_str().as_bytes());
    update_review(env, initializer, review_acct, &name_bytes, &message_bytes)
}

/// add-comment with the deposit taken from the host's rent sysvar for the
/// comment cell's exact size.
pub fn add_student_intro_comment(
    env: &ProgramEnv,
    commenter: &AccountState,
    review_key: &Address,
    counter_acct: &AccountState,
    comment_acct: &AccountState,
    collab: &CollaboratorKeys,
    comment: &String,
) -> (r: Result<AddCommentOutcome, ReviewError>)
    ensures
        match r {
            Ok(o) => exists|d: u64|
                spec_add_comment(
                    *env,
                    *commenter,
                    *review_key,
                    *counter_acct,
                    *comment_acct,
                    *collab,
                    encode_utf8(comment@),
                    d,
                ) == Ok::<AddCommentPlan, ReviewError>(o.plan()),
            Err(e) => e == ReviewError::AllocationFailure || exists|d: u64|
                spec_add_comment(
                    *env,
                    *commenter,
                    *review_key,
                    *counter_acct,
                    *comment_acct,
                    *collab,
                    encode_utf8(comment@),
                    d,
                ) == Err::<AddCommentPlan, ReviewError>(e),
        },
{
    let comment_bytes = vstd::slice::slice_to_vec(comment.as_str().as_bytes());
    let rent = match crate::host::fetch_rent() {
        Some(rent) => rent,
        None => {
            return Err(ReviewError::AllocationFailure);
        },
    };
    // When the text cannot fit any comment cell the operation fails before
    // the deposit matters, so any size serves the rent query there.
    let cell_size: u64 = if comment_bytes.len() as u64 <= 0xffff_ffffu64 - 80 {
        80 + comment_bytes.len() as u64
    } else {
        0
    };
    let comment_deposit = crate::host::rent_minimum_balance(&rent, cell_size);
    let r = add_comment(
        env,
        commenter,
        review_key,
        counter_acct,
        comment_acct,
        collab,
        &comment_bytes,
        comment_deposit,
    );
    proof {
        assert(comment_bytes@ == encode_utf8(comment@));
    }
    r
}

/// initialize-mint with the deposit taken from the host's rent sysvar for
/// the token subsystem's mint layout.
pub fn initialize_token_mint(
    env: &ProgramEnv,
    initializer: &AccountState,
    mint_acct: &AccountState,
    mint_authority: &Address,
    system_program: &Address,
    token_program: &Address,
    rent_sysvar: &Address,
) -> (r: Result<InitializeMintOutcome, ReviewError>)
    ensures
        match r {
            Ok(o) => exists|d: u64|
                spec_initialize_mint(
                    *env,
                    *initializer,
                    *mint_acct,
                    *mint_authority,
                    *system_program,
                    *token_program,
                    *rent_sysvar,
                    d,
                ) == Ok::<InitializeMintPlan, ReviewError>(o.plan()),
            Err(e) => e == ReviewError::AllocationFailure || exists|d: u64|
                spec_initialize_mint(
                    *env,
                    *initializer,
                    *mint_acct,
                    *mint_authority,
                    *system_program,
                    *token_program,
                    *rent_sysvar,
                    d,
                ) == Err::<InitializeMintPlan, ReviewError>(e),
        },
{
    let rent = match crate::host::fetch_rent() {
        Some(rent) => rent,
        None => {
            return Err(ReviewError::AllocationFailure);
        },
    };
    let mint_deposit = crate::host::rent_minimum_balance(&rent, MINT_CELL_BYTES);
    initialize_mint(
        env,
        initializer,
        mint_acct,
        mint_authority,
        system_program,
        token_program,
        rent_sysvar,
        mint_deposit,
    )
}

/// One decoded operation, with already-typed arguments.
pub enum ReviewInstruction {
    AddStudentIntro { name: String, message: String },
    UpdateStudentIntro { name: String, message: String },
    AddComment { comment: String },
    InitializeMint,
}

/// What one dispatched operation committed.
#[derive(Debug)]
pub enum ProcessOutcome {
    Created(CreateReviewOutcome),
    Updated(UpdateReviewOutcome),
    Commented(AddCommentOutcome),
    MintInitialized(InitializeMintOutcome),
}

/// The reward collaborators of create-review, by account list position.
pub open spec fn create_collaborators(accounts: Seq<AccountState>) -> CollaboratorKeys {
    CollaboratorKeys {
        token_mint: accounts[3].key,
        mint_authority: accounts[4].key,
        user_token_account: accounts[5].key,
        token_program: accounts[7].key,
    }
}

/// The reward collaborators of add-comment, by account list position.
pub open spec fn comment_collaborators(accounts: Seq<AccountState>) -> CollaboratorKeys {
    CollaboratorKeys {
        token_mint: accounts[4].key,
        mint_authority: accounts[5].key,
        user_token_account: accounts[6].key,
        token_program: accounts[8].key,
    }
}

/// Routes a decoded instruction to its operation. The account list must
/// match the operation's fixed account list: author or commenter first,
/// then the record cells it touches, then the reward collaborators.
pub fn process_instruction(
    env: &ProgramEnv,
    accounts: &Vec<AccountState>,
    instruction: &ReviewInstruction,
) -> (r: Result<ProcessOutcome, ReviewError>)
    requires
        match *instruction {
            ReviewInstruction::AddStudentIntro { .. } => accounts@.len() >= 8,
            ReviewInstruction::UpdateStudentIntro { .. } => accounts@.len() >= 2,
            ReviewInstruction::AddComment { .. } => accounts@.len() >= 9,
            ReviewInstruction::InitializeMint => accounts@.len() >= 6,
        },
    ensures
        match *instruction {
            ReviewInstruction::AddStudentIntro { name, message } => match r {
                Ok(ProcessOutcome::Created(o)) => exists|d1: u64, d2: u64|
                    spec_create_review(
                        *env,
                        accounts@[0],
                        accounts@[1],
                        accounts@[2],
                        create_collaborators(accounts@),
                        encode_utf8(name@),
                        encode_utf8(message@),
                        d1,
                        d2,
                    ) == Ok::<CreateReviewPlan, ReviewError>(o.plan()),
                Ok(_) => false,
                Err(e) => e == ReviewError::AllocationFailure || exists|d1: u64, d2: u64|
                    spec_create_review(
                        *env,
                        accounts@[0],
                        accounts@[1],
                        accounts@[2],
                        create_collaborators(accounts@),
                        encode_utf8(name@),
                        encode_utf8(message@),
                        d1,
                        d2,
                    ) == Err::<CreateReviewPlan, ReviewError>(e),
            },
            ReviewInstruction::UpdateStudentIntro { name, message } => match r {
                Ok(ProcessOutcome::Updated(o)) => spec_update_review(
                    *env,
                    accounts@[0],
                    accounts@[1],
                    encode_utf8(name@),
                    encode_utf8(message@),
                ) == Ok::<UpdateReviewPlan, ReviewError>(o.plan()),
                Ok(_) => false,
                Err(e) => spec_update_review(
                    *env,
                    accounts@[0],
                    accounts@[1],
                    encode_utf8(name@),
                    encode_utf8(message@),
                ) == Err::<UpdateReviewPlan, ReviewError>(e),
            },
            ReviewInstruction::AddComment { comment } => match r {
                Ok(ProcessOutcome::Commented(o)) => exists|d: u64|
                    spec_add_comment(
                        *env,
                        accounts@[0],
                        accounts@[1].key,
                        accounts@[2],
                        accounts@[3],
                        comment_collaborators(accounts@),
                        encode_utf8(comment@),
                        d,
                    ) == Ok::<AddCommentPlan, ReviewError>(o.plan()),
                Ok(_) => false,
                Err(e) => e == ReviewError::AllocationFailure || exists|d: u64|
                    spec_add_comment(
                        *env,
                        accounts@[0],
                        accounts@[1].key,
                        accounts@[2],
                        accounts@[3],
                        comment_collaborators(accounts@),
                        encode_utf8(comment@),
                        d,
                    ) == Err::<AddCommentPlan, ReviewError>(e),
            },
            ReviewInstruction::InitializeMint => match r {
                Ok(ProcessOutcome::MintInitialized(o)) => exists|d: u64|
                    spec_initialize_mint(
                        *env,
                        accounts@[0],
                        accounts@[1],
                        accounts@[2].key,
                        accounts@[3].key,
                        accounts@[4].key,
                        accounts@[5].key,
                        d,
                    ) == Ok::<InitializeMintPlan, ReviewError>(o.plan()),
                Ok(_) => false,
                Err(e) => e == ReviewError::AllocationFailure || exists|d: u64|
                    spec_initialize_mint(
                        *env,
                        accounts@[0],
                        accounts@[1],
                        accounts@[2].key,
                        accounts@[3].key,
                        accounts@[4].key,
                        accounts@[5].key,
                        d,
                    ) == Err::<InitializeMintPlan, ReviewError>(e),
            },
        },
{
    match instruction {
        ReviewInstruction::AddStudentIntro { name, message } => {
            let collab = CollaboratorKeys {
                token_mint: accounts[3].key,
                mint_authority: accounts[4].key,
                user_token_account: accounts[5].key,
                token_program: accounts[7].key,
            };
            proof {
                assert(collab == create_collaborators(accounts@));
            }
            match add_student_intro(
                env,
                &accounts[0],
                &accounts[1],
                &accounts[2],
                &collab,
                name,
                message,
            ) {
                Ok(o) => Ok(ProcessOutcome::Created(o)),
                Err(e) => Err(e),
            }
        },
        ReviewInstruction::UpdateStudentIntro { name, message } => {
            match update_student_intro(env, &accounts[0], &accounts[1], name, message) {
                Ok(o) => Ok(ProcessOutcome::Updated(o)),
                Err(e) => Err(e),
            }
        },
        ReviewInstruction::AddComment { comment } => {
            let collab = CollaboratorKeys {
                token_mint: accounts[4].key,
                mint_authority: accounts[5].key,
                user_token_account: accounts[6].key,
                token_program: accounts[8].key,
            };
            proof {
                assert(collab == comment_collaborators(accounts@));
            }
            let review_key = accounts[1].key;
            match add_student_intro_comment(
                env,
                &accounts[0],
                &review_key,
                &accounts[2],
                &accounts[3],
                &collab,
                comment,
            ) {
                Ok(o) => Ok(ProcessOutcome::Commented(o)),
                Err(e) => Err(e),
            }
        },
        ReviewInstruction::InitializeMint => {
            let mint_authority = accounts[2].key;
            let system_program = accounts[3].key;
            let token_program = accounts[4].key;
            let rent_sysvar = accounts[5].key;
            match initialize_token_mint(
                env,
                &accounts[0],
                &accounts[1],
                &mint_authority,
                &system_program,
                &token_program,
                &rent_sysvar,
            ) {
                Ok(o) => Ok(ProcessOutcome::MintInitialized(o)),
                Err(e) => Err(e),
            }
        },
    }
}

} // verus!
