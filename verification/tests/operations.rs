//! End-to-end exercises of the four operations over concrete account
//! snapshots, with the derivations cross-checked against the platform
//! crates directly.

use student_intro::address::{
    derive_associated_token_account, derive_comment_address, derive_counter_address,
    derive_mint_address, derive_mint_authority_address, derive_review_address, Address,
};
use student_intro::error::ReviewError;
use student_intro::processor::{
    add_comment, create_review, initialize_mint, process_instruction, update_review,
    AccountState, CollaboratorKeys, ProcessOutcome, ProgramEnv, ReviewInstruction,
};
use student_intro::state::{decode_comment, decode_counter, decode_review};

fn addr(seed: u8) -> Address {
    Address { bytes: [seed; 32] }
}

fn system_id() -> Address {
    Address { bytes: solana_program::system_program::ID.to_bytes() }
}

fn env_for(program_id: Address) -> ProgramEnv {
    ProgramEnv::gather(program_id)
}

fn fresh_cell(key: Address) -> AccountState {
    AccountState { key, is_signer: false, owner: system_id(), lamports: 0, data: vec![] }
}

struct CreateSetup {
    env: ProgramEnv,
    initializer: AccountState,
    review_acct: AccountState,
    counter_acct: AccountState,
    collab: CollaboratorKeys,
}

fn create_setup(author: Address, name: &[u8]) -> CreateSetup {
    let program_id = addr(7);
    let env = env_for(program_id);
    let (review_key, _) = derive_review_address(&program_id, &author, &name.to_vec()).unwrap();
    let (counter_key, _) = derive_counter_address(&program_id, &review_key).unwrap();
    let (mint_key, _) = derive_mint_address(&program_id).unwrap();
    let (auth_key, _) = derive_mint_authority_address(&program_id).unwrap();
    let user_ata = derive_associated_token_account(&author, &mint_key);
    CreateSetup {
        initializer: AccountState {
            key: author,
            is_signer: true,
            owner: system_id(),
            lamports: 1_000_000,
            data: vec![],
        },
        review_acct: fresh_cell(review_key),
        counter_acct: fresh_cell(counter_key),
        collab: CollaboratorKeys {
            token_mint: mint_key,
            mint_authority: auth_key,
            user_token_account: user_ata,
            token_program: env.token_program,
        },
        env,
    }
}

#[test]
fn test_create_review_reads_back_as_supplied() {
    let author = addr(2);
    let s = create_setup(author, b"hi");
    let r = create_review(
        &s.env,
        &s.initializer,
        &s.review_acct,
        &s.counter_acct,
        &s.collab,
        &b"hi".to_vec(),
        &b"hello".to_vec(),
        500,
        300,
    );
    let outcome = r.expect("a valid create-review must succeed");
    let review = decode_review(&outcome.review_data).unwrap();
    assert!(review.is_initialized);
    assert_eq!(review.discriminator, b"intro".to_vec());
    assert_eq!(review.reviewer, author.bytes.to_vec());
    assert_eq!(review.name, b"hi".to_vec());
    assert_eq!(review.message, b"hello".to_vec());
    let counter = decode_counter(&outcome.counter_data).unwrap();
    assert!(counter.is_initialized);
    assert_eq!(counter.discriminator, b"counter".to_vec());
    assert_eq!(counter.counter, 0);
    assert_eq!(outcome.reward_amount, 10_000_000_000);
    assert_eq!(outcome.reward_destination.bytes, s.collab.user_token_account.bytes);
}

#[test]
fn test_review_address_matches_platform_derivation() {
    let program_id = addr(7);
    let author = addr(2);
    let (review_key, bump) =
        derive_review_address(&program_id, &author, &b"hi".to_vec()).unwrap();
    let pk = solana_program::pubkey::Pubkey::new_from_array(program_id.bytes);
    let (expected, expected_bump) = solana_program::pubkey::Pubkey::find_program_address(
        &[&author.bytes, b"hi"],
        &pk,
    );
    assert_eq!(review_key.bytes, expected.to_bytes());
    assert_eq!(bump, expected_bump);
    // The derivation is not the identity on its seeds.
    assert_ne!(review_key.bytes, author.bytes);
}

#[test]
fn test_associated_token_account_matches_platform_derivation() {
    let wallet = addr(2);
    let mint = addr(9);
    let ours = derive_associated_token_account(&wallet, &mint);
    let expected = spl_associated_token_account::get_associated_token_address(
        &solana_program::pubkey::Pubkey::new_from_array(wallet.bytes),
        &solana_program::pubkey::Pubkey::new_from_array(mint.bytes),
    );
    assert_eq!(ours.bytes, expected.to_bytes());
    assert_ne!(ours.bytes, wallet.bytes);
}

#[test]
fn test_create_review_budget_boundary() {
    let author = addr(2);
    // 50 bytes of framing: name 2 + message 948 sits exactly on the
    // 1000-byte budget, one more byte exceeds it.
    let name = b"hi".to_vec();
    let s = create_setup(author, &name);
    let ok = create_review(
        &s.env,
        &s.initializer,
        &s.review_acct,
        &s.counter_acct,
        &s.collab,
        &name,
        &vec![0x62u8; 948],
        500,
        300,
    );
    assert!(ok.is_ok());
    let too_big = create_review(
        &s.env,
        &s.initializer,
        &s.review_acct,
        &s.counter_acct,
        &s.collab,
        &name,
        &vec![0x62u8; 949],
        500,
        300,
    );
    assert_eq!(too_big.unwrap_err(), ReviewError::DataTooLarge);
}

#[test]
fn test_create_review_requires_signer() {
    let author = addr(2);
    let mut s = create_setup(author, b"hi");
    s.initializer.is_signer = false;
    let r = create_review(
        &s.env,
        &s.initializer,
        &s.review_acct,
        &s.counter_acct,
        &s.collab,
        &b"hi".to_vec(),
        &b"hello".to_vec(),
        500,
        300,
    );
    assert_eq!(r.unwrap_err(), ReviewError::MissingSignature);
}

#[test]
fn test_create_review_rejects_wrong_review_address() {
    let author = addr(2);
    let mut s = create_setup(author, b"hi");
    s.review_acct.key = addr(99);
    let r = create_review(
        &s.env,
        &s.initializer,
        &s.review_acct,
        &s.counter_acct,
        &s.collab,
        &b"hi".to_vec(),
        &b"hello".to_vec(),
        500,
        300,
    );
    assert_eq!(r.unwrap_err(), ReviewError::InvalidDerivedAddress);
}

#[test]
fn test_create_review_rejects_wrong_mint() {
    let author = addr(2);
    let mut s = create_setup(author, b"hi");
    s.collab.token_mint = addr(98);
    let r = create_review(
        &s.env,
        &s.initializer,
        &s.review_acct,
        &s.counter_acct,
        &s.collab,
        &b"hi".to_vec(),
        &b"hello".to_vec(),
        500,
        300,
    );
    assert_eq!(r.unwrap_err(), ReviewError::IncorrectCollaboratorIdentity);
}

#[test]
fn test_create_review_rejects_poor_payer() {
    let author = addr(2);
    let mut s = create_setup(author, b"hi");
    s.initializer.lamports = 700;
    let r = create_review(
        &s.env,
        &s.initializer,
        &s.review_acct,
        &s.counter_acct,
        &s.collab,
        &b"hi".to_vec(),
        &b"hello".to_vec(),
        500,
        300,
    );
    assert_eq!(r.unwrap_err(), ReviewError::AllocationFailure);
}

#[test]
fn test_create_review_rejects_allocated_cell() {
    let author = addr(2);
    let mut s = create_setup(author, b"hi");
    s.review_acct.owner = s.env.program_id;
    let r = create_review(
        &s.env,
        &s.initializer,
        &s.review_acct,
        &s.counter_acct,
        &s.collab,
        &b"hi".to_vec(),
        &b"hello".to_vec(),
        500,
        300,
    );
    assert_eq!(r.unwrap_err(), ReviewError::AlreadyInitialized);
}

#[test]
fn test_create_review_overlong_seed_exhausts_derivation() {
    let author = addr(2);
    // A 40-byte name exceeds the host's per-seed limit, so no bump is valid.
    let name = vec![0x61u8; 40];
    let s = create_setup(author, b"hi");
    let r = create_review(
        &s.env,
        &s.initializer,
        &s.review_acct,
        &s.counter_acct,
        &s.collab,
        &name,
        &b"hello".to_vec(),
        500,
        300,
    );
    assert_eq!(r.unwrap_err(), ReviewError::AddressDerivationExhausted);
}

struct CommentSetup {
    env: ProgramEnv,
    commenter: AccountState,
    review_key: Address,
    counter_acct: AccountState,
    comment_acct: AccountState,
    collab: CollaboratorKeys,
}

fn comment_setup(count: u64) -> CommentSetup {
    let author = addr(2);
    let commenter_key = addr(3);
    let s = create_setup(author, b"hi");
    let created = create_review(
        &s.env,
        &s.initializer,
        &s.review_acct,
        &s.counter_acct,
        &s.collab,
        &b"hi".to_vec(),
        &b"hello".to_vec(),
        500,
        300,
    )
    .unwrap();
    // The counter cell as the host leaves it after `count` accepted
    // comments: the record bytes, padded with uninterpreted zeroes.
    let mut counter_data = if count == 0 {
        created.counter_data.clone()
    } else {
        let rec = student_intro::state::StudentIntroCommentCounter {
            discriminator: b"counter".to_vec(),
            is_initialized: true,
            counter: count,
        };
        student_intro::state::encode_counter(&rec)
    };
    counter_data.push(0);
    counter_data.push(0);
    let (comment_key, _) =
        derive_comment_address(&s.env.program_id, &s.review_acct.key, count).unwrap();
    let user_ata = derive_associated_token_account(&commenter_key, &s.collab.token_mint);
    CommentSetup {
        commenter: AccountState {
            key: commenter_key,
            is_signer: true,
            owner: system_id(),
            lamports: 1_000_000,
            data: vec![],
        },
        review_key: s.review_acct.key,
        counter_acct: AccountState {
            key: s.counter_acct.key,
            is_signer: false,
            owner: s.env.program_id,
            lamports: 300,
            data: counter_data,
        },
        comment_acct: fresh_cell(comment_key),
        collab: CollaboratorKeys { user_token_account: user_ata, ..s.collab },
        env: s.env,
    }
}

#[test]
fn test_add_comment_first_comment() {
    let s = comment_setup(0);
    let r = add_comment(
        &s.env,
        &s.commenter,
        &s.review_key,
        &s.counter_acct,
        &s.comment_acct,
        &s.collab,
        &b"nice".to_vec(),
        400,
    );
    let outcome = r.expect("a valid add-comment must succeed");
    assert_eq!(outcome.prior_count, 0);
    let counter = decode_counter(&outcome.counter_data).unwrap();
    assert_eq!(counter.counter, 1);
    assert!(counter.is_initialized);
    let comment = decode_comment(&outcome.comment_data).unwrap();
    assert!(comment.is_initialized);
    assert_eq!(comment.discriminator, b"comment".to_vec());
    assert_eq!(comment.review, s.review_key.bytes.to_vec());
    assert_eq!(comment.commenter, s.commenter.key.bytes.to_vec());
    assert_eq!(comment.comment, b"nice".to_vec());
    assert_eq!(outcome.reward_amount, 5_000_000_000);
    assert_eq!(outcome.comment_cell_size, 84);
    assert_eq!(outcome.reward_destination.bytes, s.collab.user_token_account.bytes);
}

#[test]
fn test_add_comment_sequence_uses_successive_counter_values() {
    // First comment sits at the address derived from 0; committing it
    // moves the counter to 1, and the second comment only passes at the
    // address derived from 1.
    let s = comment_setup(0);
    let first = add_comment(
        &s.env,
        &s.commenter,
        &s.review_key,
        &s.counter_acct,
        &s.comment_acct,
        &s.collab,
        &b"nice".to_vec(),
        400,
    )
    .unwrap();
    assert_eq!(first.prior_count, 0);
    let mut counter_cell = s.counter_acct;
    counter_cell.data = first.counter_data.clone();
    let (second_key, _) = derive_comment_address(&s.env.program_id, &s.review_key, 1).unwrap();
    let second = add_comment(
        &s.env,
        &s.commenter,
        &s.review_key,
        &counter_cell,
        &fresh_cell(second_key),
        &s.collab,
        &b"more".to_vec(),
        400,
    )
    .unwrap();
    assert_eq!(second.prior_count, 1);
    assert_eq!(decode_counter(&second.counter_data).unwrap().counter, 2);
}

#[test]
fn test_add_comment_stale_address_is_rejected() {
    // One comment was already accepted, the counter reads 1; presenting
    // the address derived from 0 again no longer matches.
    let mut s = comment_setup(1);
    let (stale_key, _) = derive_comment_address(&s.env.program_id, &s.review_key, 0).unwrap();
    let (next_key, _) = derive_comment_address(&s.env.program_id, &s.review_key, 1).unwrap();
    assert_ne!(stale_key.bytes, next_key.bytes);
    s.comment_acct = fresh_cell(stale_key);
    let r = add_comment(
        &s.env,
        &s.commenter,
        &s.review_key,
        &s.counter_acct,
        &s.comment_acct,
        &s.collab,
        &b"again".to_vec(),
        400,
    );
    assert_eq!(r.unwrap_err(), ReviewError::InvalidDerivedAddress);
}

#[test]
fn test_add_comment_allocated_cell_is_rejected() {
    let mut s = comment_setup(0);
    s.comment_acct.owner = s.env.program_id;
    s.comment_acct.data = vec![0; 84];
    let r = add_comment(
        &s.env,
        &s.commenter,
        &s.review_key,
        &s.counter_acct,
        &s.comment_acct,
        &s.collab,
        &b"nice".to_vec(),
        400,
    );
    assert_eq!(r.unwrap_err(), ReviewError::AlreadyInitialized);
}

#[test]
fn test_add_comment_needs_initialized_counter() {
    let mut s = comment_setup(0);
    // A freshly allocated, all-zero counter cell decodes as a record that
    // is not yet initialized.
    s.counter_acct.data = vec![0; 20];
    let r = add_comment(
        &s.env,
        &s.commenter,
        &s.review_key,
        &s.counter_acct,
        &s.comment_acct,
        &s.collab,
        &b"nice".to_vec(),
        400,
    );
    assert_eq!(r.unwrap_err(), ReviewError::Uninitialized);
}

fn updated_review_cell() -> (ProgramEnv, AccountState, AccountState) {
    let author = addr(2);
    let s = create_setup(author, b"hi");
    let created = create_review(
        &s.env,
        &s.initializer,
        &s.review_acct,
        &s.counter_acct,
        &s.collab,
        &b"hi".to_vec(),
        &b"hello".to_vec(),
        500,
        300,
    )
    .unwrap();
    let mut data = created.review_data.clone();
    data.resize(1000, 0);
    let cell = AccountState {
        key: s.review_acct.key,
        is_signer: false,
        owner: s.env.program_id,
        lamports: 500,
        data,
    };
    (s.env, s.initializer, cell)
}

#[test]
fn test_update_review_rewrites_in_place() {
    let (env, initializer, cell) = updated_review_cell();
    let r = update_review(&env, &initializer, &cell, &b"hi".to_vec(), &b"changed".to_vec());
    let outcome = r.expect("a valid update-review must succeed");
    let rec = decode_review(&outcome.new_data).unwrap();
    assert!(rec.is_initialized);
    assert_eq!(rec.reviewer, initializer.key.bytes.to_vec());
    assert_eq!(rec.name, b"hi".to_vec());
    assert_eq!(rec.message, b"changed".to_vec());
}

#[test]
fn test_update_review_rejects_foreign_cell() {
    let (env, initializer, mut cell) = updated_review_cell();
    cell.owner = addr(50);
    let r = update_review(&env, &initializer, &cell, &b"hi".to_vec(), &b"changed".to_vec());
    assert_eq!(r.unwrap_err(), ReviewError::NotOwnedByProgram);
}

#[test]
fn test_update_review_rejects_wrong_author() {
    let (env, mut initializer, cell) = updated_review_cell();
    // Another signer: the address no longer re-derives from the stored name.
    initializer.key = addr(44);
    let r = update_review(&env, &initializer, &cell, &b"hi".to_vec(), &b"changed".to_vec());
    assert_eq!(r.unwrap_err(), ReviewError::InvalidDerivedAddress);
}

#[test]
fn test_update_review_rejects_uninitialized_record() {
    let author = addr(2);
    let s = create_setup(author, b"hi");
    // The cell exists and is program-owned but holds only zeroes: the
    // stored name is empty, so the derivation check must be run against
    // the empty name, and the record is not initialized.
    let (zero_key, _) = derive_review_address(&s.env.program_id, &author, &vec![]).unwrap();
    let cell = AccountState {
        key: zero_key,
        is_signer: false,
        owner: s.env.program_id,
        lamports: 500,
        data: vec![0; 1000],
    };
    let r = update_review(&s.env, &s.initializer, &cell, &b"hi".to_vec(), &b"x".to_vec());
    assert_eq!(r.unwrap_err(), ReviewError::Uninitialized);
}

#[test]
fn test_initialize_mint_stages_singleton() {
    let program_id = addr(7);
    let env = env_for(program_id);
    let (mint_key, mint_bump) = derive_mint_address(&program_id).unwrap();
    let (auth_key, auth_bump) = derive_mint_authority_address(&program_id).unwrap();
    let initializer = AccountState {
        key: addr(2),
        is_signer: true,
        owner: system_id(),
        lamports: 10_000,
        data: vec![],
    };
    let mint_cell = fresh_cell(mint_key);
    let r = initialize_mint(
        &env,
        &initializer,
        &mint_cell,
        &auth_key,
        &env.system_program.clone(),
        &env.token_program.clone(),
        &env.rent_sysvar.clone(),
        1_000,
    );
    let outcome = r.expect("a valid initialize-mint must succeed");
    assert_eq!(outcome.decimals, 9);
    assert_eq!(outcome.mint_cell_size, 82);
    assert_eq!(outcome.mint_bump, mint_bump);
    assert_eq!(outcome.mint_authority_bump, auth_bump);
}

#[test]
fn test_initialize_mint_rejects_wrong_rent_sysvar() {
    let program_id = addr(7);
    let env = env_for(program_id);
    let (mint_key, _) = derive_mint_address(&program_id).unwrap();
    let (auth_key, _) = derive_mint_authority_address(&program_id).unwrap();
    let initializer = AccountState {
        key: addr(2),
        is_signer: true,
        owner: system_id(),
        lamports: 10_000,
        data: vec![],
    };
    let mint_cell = fresh_cell(mint_key);
    let r = initialize_mint(
        &env,
        &initializer,
        &mint_cell,
        &auth_key,
        &env.system_program.clone(),
        &env.token_program.clone(),
        &addr(77),
        1_000,
    );
    assert_eq!(r.unwrap_err(), ReviewError::IncorrectCollaboratorIdentity);
}

#[test]
fn test_process_instruction_routes_update() {
    let (env, initializer, cell) = updated_review_cell();
    let accounts = vec![initializer, cell];
    let instruction = ReviewInstruction::UpdateStudentIntro {
        name: "hi".to_string(),
        message: "routed".to_string(),
    };
    let r = process_instruction(&env, &accounts, &instruction);
    match r.expect("routed update must succeed") {
        ProcessOutcome::Updated(o) => {
            let rec = decode_review(&o.new_data).unwrap();
            assert_eq!(rec.message, b"routed".to_vec());
        }
        _ => panic!("update must produce an update outcome"),
    }
}

#[test]
fn test_comment_address_uses_big_endian_counter_seed() {
    let program_id = addr(7);
    let review = addr(11);
    let pk = solana_program::pubkey::Pubkey::new_from_array(program_id.bytes);
    for count in [0u64, 1, 2, 0x0102_0304_0506_0708] {
        let (ours, bump) = derive_comment_address(&program_id, &review, count).unwrap();
        let (expected, expected_bump) = solana_program::pubkey::Pubkey::find_program_address(
            &[&review.bytes, &count.to_be_bytes()],
            &pk,
        );
        assert_eq!(ours.bytes, expected.to_bytes());
        assert_eq!(bump, expected_bump);
    }
}

#[test]
fn test_rent_dependent_paths_fail_without_the_sysvar() {
    // This harness has no host, so the rent sysvar cannot be read: every
    // operation that must price a deposit reports the allocation failure
    // instead of guessing one.
    let author = addr(2);
    let s = create_setup(author, b"hi");
    let accounts = vec![
        s.initializer,
        s.review_acct,
        s.counter_acct,
        fresh_cell(s.collab.token_mint),
        fresh_cell(s.collab.mint_authority),
        fresh_cell(s.collab.user_token_account),
        fresh_cell(s.env.system_program),
        fresh_cell(s.collab.token_program),
    ];
    let instruction = ReviewInstruction::AddStudentIntro {
        name: "hi".to_string(),
        message: "hello".to_string(),
    };
    let r = process_instruction(&s.env, &accounts, &instruction);
    assert_eq!(r.unwrap_err(), ReviewError::AllocationFailure);
}

#[test]
fn test_comment_and_mint_also_need_the_sysvar() {
    let s = comment_setup(0);
    let r = student_intro::processor::add_student_intro_comment(
        &s.env,
        &s.commenter,
        &s.review_key,
        &s.counter_acct,
        &s.comment_acct,
        &s.collab,
        &"nice".to_string(),
    );
    assert_eq!(r.unwrap_err(), ReviewError::AllocationFailure);

    let program_id = addr(7);
    let env = env_for(program_id);
    let (mint_key, _) = derive_mint_address(&program_id).unwrap();
    let (auth_key, _) = derive_mint_authority_address(&program_id).unwrap();
    let initializer = AccountState {
        key: addr(2),
        is_signer: true,
        owner: system_id(),
        lamports: 10_000,
        data: vec![],
    };
    let r = student_intro::processor::initialize_token_mint(
        &env,
        &initializer,
        &fresh_cell(mint_key),
        &auth_key,
        &env.system_program,
        &env.token_program,
        &env.rent_sysvar,
    );
    assert_eq!(r.unwrap_err(), ReviewError::AllocationFailure);
}

#[test]
fn test_error_codes_are_distinct() {
    let all = [
        ReviewError::InvalidDerivedAddress,
        ReviewError::IncorrectCollaboratorIdentity,
        ReviewError::MissingSignature,
        ReviewError::NotOwnedByProgram,
        ReviewError::Uninitialized,
        ReviewError::AlreadyInitialized,
        ReviewError::DataTooLarge,
        ReviewError::AllocationFailure,
        ReviewError::MintInvocationFailure,
        ReviewError::AddressDerivationExhausted,
    ];
    for (i, a) in all.iter().enumerate() {
        for (j, b) in all.iter().enumerate() {
            assert_eq!(i == j, a.code() == b.code());
        }
    }
}
