//! Laws of the operation contracts that relate several functions: what a
//! committed operation reads back as, when add-comment succeeds, and what
//! the reward minter is told to mint. Each is proved from the operations'
//! own specifications.

use vstd::prelude::*;

use crate::address::{comment_seed_views, counter_seed_views, mint_authority_seed_views,
    mint_seed_views, review_seed_views};
use crate::error::ReviewError;
use crate::host::{associated_token_address, derived_address};
use crate::processor::{
    spec_add_comment, spec_allocated, spec_create_review, spec_update_review, AccountState,
    CollaboratorKeys, ProgramEnv, COMMENT_REWARD_UNITS, REVIEW_REWARD_UNITS,
};
use crate::state::{
    comment_discriminator, counter_discriminator, intro_discriminator, lemma_comment_round_trip,
    lemma_counter_round_trip, lemma_review_round_trip, review_record_size, spec_decode_comment,
    spec_decode_counter, spec_decode_review, CommentView, CounterView, ReviewView,
    MAX_RECORD_BYTES,
};

verus! {

/// A valid create-review commits cells that read back exactly as supplied:
/// the review record is initialized and holds the author, name and message
/// unchanged, and the counter record is initialized at zero — whatever
/// uninterpreted bytes trail the records in their cells.
#[verifier::rlimit(100)]
pub proof fn law_create_review_read_back(
    env: ProgramEnv,
    initializer: AccountState,
    review_acct: AccountState,
    counter_acct: AccountState,
    collab: CollaboratorKeys,
    name: Seq<u8>,
    message: Seq<u8>,
    review_deposit: u64,
    counter_deposit: u64,
    review_rest: Seq<u8>,
    counter_rest: Seq<u8>,
)
    requires
        initializer.is_signer,
        review_record_size(name.len() as int, message.len() as int) <= MAX_RECORD_BYTES as int,
        ({
            let d = derived_address(review_seed_views(initializer.key@, name), env.program_id@);
            d is Some && d->Some_0.0 == review_acct.key@
        }),
        ({
            let d = derived_address(counter_seed_views(review_acct.key@), env.program_id@);
            d is Some && d->Some_0.0 == counter_acct.key@
        }),
        ({
            let d = derived_address(mint_seed_views(), env.program_id@);
            d is Some && d->Some_0.0 == collab.token_mint@
        }),
        ({
            let d = derived_address(mint_authority_seed_views(), env.program_id@);
            d is Some && d->Some_0.0 == collab.mint_authority@
        }),
        collab.user_token_account@ == associated_token_address(
            initializer.key@,
            collab.token_mint@,
        ),
        collab.token_program@ == env.token_program@,
        !spec_allocated(review_acct, env.system_program),
        !spec_allocated(counter_acct, env.system_program),
        initializer.lamports >= review_deposit,
        initializer.lamports - review_deposit >= counter_deposit,
        initializer.key@.len() == 32,
    ensures
        ({
            let r = spec_create_review(
                env,
                initializer,
                review_acct,
                counter_acct,
                collab,
                name,
                message,
                review_deposit,
                counter_deposit,
            );
            r is Ok && spec_decode_review(r->Ok_0.review_data + review_rest) == Some(
                ReviewView {
                    discriminator: intro_discriminator(),
                    is_initialized: true,
                    reviewer: initializer.key@,
                    name: name,
                    message: message,
                },
            ) && spec_decode_counter(r->Ok_0.counter_data + counter_rest) == Some(
                CounterView {
                    discriminator: counter_discriminator(),
                    is_initialized: true,
                    counter: 0,
                },
            )
        }),
{
    let r = spec_create_review(
        env,
        initializer,
        review_acct,
        counter_acct,
        collab,
        name,
        message,
        review_deposit,
        counter_deposit,
    );
    let rv = ReviewView {
        discriminator: intro_discriminator(),
        is_initialized: true,
        reviewer: initializer.key@,
        name: name,
        message: message,
    };
    let cv = CounterView {
        discriminator: counter_discriminator(),
        is_initialized: true,
        counter: 0,
    };
    assert(r is Ok);
    assert(r->Ok_0.review_data == crate::state::spec_encode_review(rv));
    assert(r->Ok_0.counter_data == crate::state::spec_encode_counter(cv));
    lemma_review_round_trip(rv, review_rest);
    lemma_counter_round_trip(cv, counter_rest);
}

/// With `k` comments accepted so far and every collaborator identity
/// valid, add-comment succeeds exactly when the supplied comment address
/// equals the derivation from `k`; after success the counter cell reads
/// back as `k + 1` and the comment cell reads back as supplied.
#[verifier::rlimit(100)]
pub proof fn law_add_comment_gate_and_count(
    env: ProgramEnv,
    commenter: AccountState,
    review_key: crate::address::Address,
    counter_acct: AccountState,
    comment_acct: AccountState,
    collab: CollaboratorKeys,
    text: Seq<u8>,
    comment_deposit: u64,
    counter_rest: Seq<u8>,
    comment_rest: Seq<u8>,
)
    requires
        ({
            let s = spec_decode_counter(counter_acct.data@);
            s is Some && s->Some_0.is_initialized && s->Some_0.discriminator
                == counter_discriminator()
        }),
        80 + text.len() <= 0xffff_ffff,
        ({
            let k = spec_decode_counter(counter_acct.data@)->Some_0.counter;
            let d = derived_address(comment_seed_views(review_key@, k), env.program_id@);
            d is Some
        }),
        ({
            let d = derived_address(mint_seed_views(), env.program_id@);
            d is Some && d->Some_0.0 == collab.token_mint@
        }),
        ({
            let d = derived_address(mint_authority_seed_views(), env.program_id@);
            d is Some && d->Some_0.0 == collab.mint_authority@
        }),
        collab.user_token_account@ == associated_token_address(commenter.key@, collab.token_mint@),
        collab.token_program@ == env.token_program@,
        !spec_allocated(comment_acct, env.system_program),
        spec_decode_counter(counter_acct.data@)->Some_0.counter < u64::MAX,
        commenter.lamports >= comment_deposit,
        review_key@.len() == 32,
        commenter.key@.len() == 32,
    ensures
        ({
            let k = spec_decode_counter(counter_acct.data@)->Some_0.counter;
            let r = spec_add_comment(
                env,
                commenter,
                review_key,
                counter_acct,
                comment_acct,
                collab,
                text,
                comment_deposit,
            );
            &&& (r is Ok <==> comment_acct.key@ == derived_address(
                comment_seed_views(review_key@, k),
                env.program_id@,
            )->Some_0.0)
            &&& (r is Ok ==> spec_decode_counter(r->Ok_0.counter_data + counter_rest) == Some(
                CounterView {
                    discriminator: counter_discriminator(),
                    is_initialized: true,
                    counter: (k + 1) as u64,
                },
            ) && spec_decode_comment(r->Ok_0.comment_data + comment_rest) == Some(
                CommentView {
                    discriminator: comment_discriminator(),
                    is_initialized: true,
                    review: review_key@,
                    commenter: commenter.key@,
                    comment: text,
                },
            ) && r->Ok_0.prior_count == k)
        }),
{
    let k = spec_decode_counter(counter_acct.data@)->Some_0.counter;
    let r = spec_add_comment(
        env,
        commenter,
        review_key,
        counter_acct,
        comment_acct,
        collab,
        text,
        comment_deposit,
    );
    let cv = CounterView {
        discriminator: counter_discriminator(),
        is_initialized: true,
        counter: (k + 1) as u64,
    };
    let mv = CommentView {
        discriminator: comment_discriminator(),
        is_initialized: true,
        review: review_key@,
        commenter: commenter.key@,
        comment: text,
    };
    if comment_acct.key@ == derived_address(
        comment_seed_views(review_key@, k),
        env.program_id@,
    )->Some_0.0 {
        assert(r is Ok);
        assert(r->Ok_0.counter_data == crate::state::spec_encode_counter(cv));
        assert(r->Ok_0.comment_data == crate::state::spec_encode_comment(mv));
        lemma_counter_round_trip(cv, counter_rest);
        lemma_comment_round_trip(mv, comment_rest);
    } else {
        assert(r == Err::<crate::processor::AddCommentPlan, ReviewError>(
            ReviewError::InvalidDerivedAddress,
        ));
    }
}

/// After a comment is accepted the counter reads `k + 1`, so a fresh call
/// that still presents the address derived from `k` — whose cell is now
/// allocated — fails: with `AlreadyInitialized` where that address also
/// equals the new derivation, and with `InvalidDerivedAddress` otherwise.
pub proof fn law_add_comment_no_reuse(
    env: ProgramEnv,
    commenter: AccountState,
    review_key: crate::address::Address,
    counter_acct: AccountState,
    comment_acct: AccountState,
    collab: CollaboratorKeys,
    text: Seq<u8>,
    comment_deposit: u64,
    k: u64,
)
    requires
        spec_decode_counter(counter_acct.data@) == Some(
            CounterView {
                discriminator: counter_discriminator(),
                is_initialized: true,
                counter: (k + 1) as u64,
            },
        ),
        k < u64::MAX,
        80 + text.len() <= 0xffff_ffff,
        ({
            let d = derived_address(comment_seed_views(review_key@, k), env.program_id@);
            d is Some && d->Some_0.0 == comment_acct.key@
        }),
        derived_address(comment_seed_views(review_key@, (k + 1) as u64), env.program_id@)
            is Some,
        ({
            let d = derived_address(mint_seed_views(), env.program_id@);
            d is Some && d->Some_0.0 == collab.token_mint@
        }),
        ({
            let d = derived_address(mint_authority_seed_views(), env.program_id@);
            d is Some && d->Some_0.0 == collab.mint_authority@
        }),
        collab.user_token_account@ == associated_token_address(commenter.key@, collab.token_mint@),
        collab.token_program@ == env.token_program@,
        spec_allocated(comment_acct, env.system_program),
    ensures
        ({
            let r = spec_add_comment(
                env,
                commenter,
                review_key,
                counter_acct,
                comment_acct,
                collab,
                text,
                comment_deposit,
            );
            r is Err && (r->Err_0 == ReviewError::InvalidDerivedAddress || r->Err_0
                == ReviewError::AlreadyInitialized)
        }),
{
}

/// update-review refuses a cell this program does not own.
pub proof fn law_update_foreign_cell(
    env: ProgramEnv,
    initializer: AccountState,
    review_acct: AccountState,
    name: Seq<u8>,
    message: Seq<u8>,
)
    requires
        review_acct.owner@ != env.program_id@,
    ensures
        spec_update_review(env, initializer, review_acct, name, message) == Err::<
            crate::processor::UpdateReviewPlan,
            ReviewError,
        >(ReviewError::NotOwnedByProgram),
{
}

/// update-review refuses a signer whose identity does not re-derive the
/// cell's address from the stored name: renaming never re-keys storage,
/// so only the original name-derived author passes.
pub proof fn law_update_wrong_author(
    env: ProgramEnv,
    initializer: AccountState,
    review_acct: AccountState,
    name: Seq<u8>,
    message: Seq<u8>,
)
    requires
        review_acct.owner@ == env.program_id@,
        initializer.is_signer,
        spec_decode_review(review_acct.data@) is Some,
        ({
            let stored = spec_decode_review(review_acct.data@)->Some_0;
            let d = derived_address(
                review_seed_views(initializer.key@, stored.name),
                env.program_id@,
            );
            d is Some && d->Some_0.0 != review_acct.key@
        }),
    ensures
        spec_update_review(env, initializer, review_acct, name, message) == Err::<
            crate::processor::UpdateReviewPlan,
            ReviewError,
        >(ReviewError::InvalidDerivedAddress),
{
}

/// create-review refuses content over the byte budget outright: the error
/// comes before any address work, and an error carries no plan, so no
/// cell is staged and nothing is minted.
pub proof fn law_create_review_budget(
    env: ProgramEnv,
    initializer: AccountState,
    review_acct: AccountState,
    counter_acct: AccountState,
    collab: CollaboratorKeys,
    name: Seq<u8>,
    message: Seq<u8>,
    review_deposit: u64,
    counter_deposit: u64,
)
    requires
        initializer.is_signer,
        review_record_size(name.len() as int, message.len() as int) > MAX_RECORD_BYTES as int,
    ensures
        spec_create_review(
            env,
            initializer,
            review_acct,
            counter_acct,
            collab,
            name,
            message,
            review_deposit,
            counter_deposit,
        ) == Err::<crate::processor::CreateReviewPlan, ReviewError>(ReviewError::DataTooLarge),
{
}

/// Whenever create-review succeeds it mints exactly ten whole tokens, to
/// the author's associated token account and nowhere else; whenever
/// add-comment succeeds it mints exactly five, to the commenter's.
pub proof fn law_reward_amounts(
    env: ProgramEnv,
    initializer: AccountState,
    review_acct: AccountState,
    counter_acct: AccountState,
    commenter: AccountState,
    review_key: crate::address::Address,
    comment_acct: AccountState,
    collab: CollaboratorKeys,
    name: Seq<u8>,
    message: Seq<u8>,
    text: Seq<u8>,
    d1: u64,
    d2: u64,
    d3: u64,
)
    ensures
        ({
            let r = spec_create_review(
                env,
                initializer,
                review_acct,
                counter_acct,
                collab,
                name,
                message,
                d1,
                d2,
            );
            r is Ok ==> r->Ok_0.reward_amount == REVIEW_REWARD_UNITS
                && r->Ok_0.reward_destination == associated_token_address(
                initializer.key@,
                collab.token_mint@,
            )
        }),
        ({
            let r = spec_add_comment(
                env,
                commenter,
                review_key,
                counter_acct,
                comment_acct,
                collab,
                text,
                d3,
            );
            r is Ok ==> r->Ok_0.reward_amount == COMMENT_REWARD_UNITS
                && r->Ok_0.reward_destination == associated_token_address(
                commenter.key@,
                collab.token_mint@,
            )
        }),
{
}

} // verus!
