use vstd::prelude::*;
use vstd::string::StringSliceAdditionalSpecFns;

use crate::accounts::{
    found_bump, seeds_match, CancelJob, ClaimReward, InitializeClient, InitializeJob, PublishJob, PublishSubmission,
    StartJob, ValidateSubmission,
};
use crate::dsync_rust::{
    after_cancel_job, after_initialize_client, after_initialize_job, after_publish_job, after_publish_submission, after_start_job,
    after_validate_submission,
};
use crate::pubkey::Pubkey;
use crate::error::ErrorCode;
use crate::pda::{
    authority_seeds, canonical_address, client_seeds, job_seeds, submission_seeds, vault_seeds, AUTHORITY_SEED, CLIENT_SEED,
    JOB_SEED, SUBMISSION_SEED, VAULT_SEED,
};
use crate::state::{stored_string_len, Client, Job, JobState, Submission};

verus! {

/// The account checks file each bump under the account's name ("client"),
/// never under the client seed that `initialize_client` looks up; so no
/// context that the checks produce meets `initialize_client`'s requirement.
pub proof fn initialize_client_lookup_misses(accounts: InitializeClient, program_id: Seq<u8>, client: Seq<u8>)
    requires
        accounts.spec_try_accounts(program_id, client) is Ok,
    ensures
        !accounts.spec_try_accounts(program_id, client)->Ok_0.contains_key(CLIENT_SEED@),
{
    reveal_strlit("DSYNC_CLIENT");
    reveal_strlit("client");
    assert(CLIENT_SEED@.len() != "client"@.len());
}

/// The checks of `initialize_job` file bumps under "job" and "vault", never
/// under the job seed that `initialize_job` looks up.
pub proof fn initialize_job_lookup_misses(accounts: InitializeJob, program_id: Seq<u8>)
    requires
        accounts.spec_try_accounts(program_id) is Ok,
    ensures
        !accounts.spec_try_accounts(program_id)->Ok_0.contains_key(JOB_SEED@),
{
    reveal_strlit("DSYNC_JOB");
    reveal_strlit("job");
    reveal_strlit("vault");
    assert(JOB_SEED@.len() != "job"@.len());
    assert(JOB_SEED@.len() != "vault"@.len());
}

/// The checks of `start_job` file the bump under "submission", never under
/// the submission seed that `start_job` looks up.
pub proof fn start_job_lookup_misses(accounts: StartJob, program_id: Seq<u8>, worker: Seq<u8>)
    requires
        accounts.spec_try_accounts(program_id, worker) is Ok,
    ensures
        !accounts.spec_try_accounts(program_id, worker)->Ok_0.contains_key(SUBMISSION_SEED@),
{
    reveal_strlit("DSYNC_SUBMISSION");
    reveal_strlit("submission");
    assert(SUBMISSION_SEED@.len() != "submission"@.len());
}

/// A canceled, validated or completed job can be neither canceled, nor
/// started, nor have a submission validated.
pub proof fn closed_jobs_stay_closed(state: JobState)
    requires
        state == JobState::CANCELED || state == JobState::VALIDATED || state == JobState::COMPLETED,
    ensures
        !state.spec_is_cancelable(),
        !state.spec_is_open(),
{
}

/// A job that can be canceled can also still be started and validated.
pub proof fn cancelable_jobs_are_open(state: JobState)
    requires
        state.spec_is_cancelable(),
    ensures
        state.spec_is_open(),
{
}

/// A reward can be claimed only with a submission marked as winner; a
/// submission starts unmarked, and no handler marks one.
pub proof fn claim_needs_winner(accounts: ClaimReward, program_id: Seq<u8>)
    requires
        !accounts.submission.data.is_winner,
    ensures
        accounts.spec_try_accounts(program_id) is Err,
{
}

/// Only the job's client, signing, can get a job canceled.
pub proof fn only_the_client_cancels(accounts: CancelJob, program_id: Seq<u8>)
    requires
        accounts.spec_try_accounts(program_id) is Ok,
    ensures
        accounts.signer.is_signer,
        accounts.signer.key@ == accounts.job.data.client@,
{
}

/// Only the job's validator, signing, can get a submission accepted.
pub proof fn only_the_validator_validates(accounts: ValidateSubmission, program_id: Seq<u8>)
    requires
        accounts.spec_try_accounts(program_id) is Ok,
    ensures
        accounts.signer.is_signer,
        accounts.signer.key@ == accounts.job.data.validator@,
{
}

/// A reward goes only to the signing worker of a winning submission of a
/// validated job, into a token account of that worker in the job's currency.
pub proof fn only_the_winner_claims(accounts: ClaimReward, program_id: Seq<u8>)
    requires
        accounts.spec_try_accounts(program_id) is Ok,
    ensures
        accounts.signer.is_signer,
        accounts.signer.key@ == accounts.submission.data.worker@,
        accounts.submission.data.is_winner,
        accounts.submission.data.job@ == accounts.job.key@,
        accounts.job.data.state == JobState::VALIDATED,
        accounts.winning_token_account.data.owner@ == accounts.signer.key@,
        accounts.winning_token_account.data.mint@ == accounts.job.data.currency@,
{
}

/// Registering a client again is refused once its account exists: the
/// account at the client's address is then allocated.
pub proof fn one_client_per_owner(first: InitializeClient, second: InitializeClient, program_id: Seq<u8>, client: Seq<u8>)
    requires
        first.spec_try_accounts(program_id, client) is Ok,
        second.client.key@ == first.client.key@ ==> second.client.is_allocated,
    ensures
        second.spec_try_accounts(program_id, client) is Err,
{
}

/// A worker can be started on a job only once: the submission account at
/// the worker's and job's address is allocated by the first start.
pub proof fn one_submission_per_worker_and_job(first: StartJob, second: StartJob, program_id: Seq<u8>, worker: Seq<u8>)
    requires
        first.spec_try_accounts(program_id, worker) is Ok,
        second.job.key@ == first.job.key@,
        second.submission.key@ == first.submission.key@ ==> second.submission.is_allocated,
    ensures
        second.spec_try_accounts(program_id, worker) is Err,
{
}

/// A job account, and so a job number of a client, is created only once:
/// with the client's owner and count unchanged, the job's address is the
/// same and already allocated.
pub proof fn one_job_per_number(first: InitializeJob, second: InitializeJob, program_id: Seq<u8>)
    requires
        first.spec_try_accounts(program_id) is Ok,
        second.client.data.owner@ == first.client.data.owner@,
        second.client.data.job_count == first.client.data.job_count,
        second.job.key@ == first.job.key@ ==> second.job.is_allocated,
    ensures
        second.spec_try_accounts(program_id) is Err,
{
}

/// Different job numbers give different job seeds.
proof fn lemma_job_seeds_distinct(owner: Seq<u8>, a: u64, b: u64)
    requires
        a != b,
    ensures
        job_seeds(owner, a) != job_seeds(owner, b),
{
    vstd::bytes::lemma_auto_spec_u64_to_from_le_bytes();
    let x = vstd::bytes::spec_u64_to_le_bytes(a);
    let y = vstd::bytes::spec_u64_to_le_bytes(b);
    if job_seeds(owner, a) == job_seeds(owner, b) {
        assert(job_seeds(owner, a)[2] == x);
        assert(job_seeds(owner, b)[2] == y);
        assert(vstd::bytes::spec_u64_from_le_bytes(x) == vstd::bytes::spec_u64_from_le_bytes(y));
    }
}

/// The arguments of one `initialize_job` call: the bump filed under the job
/// seed, the description, price, native flag, deadline and time.
pub open spec fn job_after_call(a: InitializeJob, args: (u8, String, u64, bool, i64, i64)) -> InitializeJob {
    after_initialize_job(a, args.0, args.1, args.2, args.3, args.4, args.5)
}

/// In a series of job creations on a freshly registered client, each call
/// sees the client as the previous one left it.
pub open spec fn is_job_series(
    registration: InitializeClient,
    owner: Pubkey,
    client_bump: u8,
    calls: Seq<InitializeJob>,
    args: Seq<(u8, String, u64, bool, i64, i64)>,
) -> bool {
    &&& args.len() == calls.len()
    &&& calls.len() <= u64::MAX
    &&& calls.len() > 0 ==> calls[0].client.data == after_initialize_client(registration, owner, client_bump).client.data
    &&& forall|i: int| 0 < i < calls.len() ==> #[trigger] calls[i].client.data == job_after_call(calls[i - 1], args[i - 1]).client.data
}

proof fn lemma_job_series_counts(
    registration: InitializeClient,
    owner: Pubkey,
    client_bump: u8,
    calls: Seq<InitializeJob>,
    args: Seq<(u8, String, u64, bool, i64, i64)>,
    i: int,
)
    requires
        is_job_series(registration, owner, client_bump, calls, args),
        0 <= i < calls.len(),
    ensures
        calls[i].client.data.job_count == i,
        calls[i].client.data.owner == owner,
        job_after_call(calls[i], args[i]).job.data.index == i + 1,
        job_after_call(calls[i], args[i]).client.data.job_count == i + 1,
    decreases i,
{
    if i > 0 {
        lemma_job_series_counts(registration, owner, client_bump, calls, args, i - 1);
        assert(calls[i].client.data == job_after_call(calls[i - 1], args[i - 1]).client.data);
    }
}

/// A series of k job creations on a freshly registered client numbers the
/// jobs 1, 2, ..., k in call order and leaves the client's count at k; the
/// i-th job's address is checked against the seeds of number i - 1, and no
/// two jobs of the series share those seeds.
pub proof fn jobs_are_numbered_one_to_k(
    registration: InitializeClient,
    owner: Pubkey,
    client_bump: u8,
    calls: Seq<InitializeJob>,
    args: Seq<(u8, String, u64, bool, i64, i64)>,
)
    requires
        is_job_series(registration, owner, client_bump, calls, args),
    ensures
        forall|i: int| 0 <= i < calls.len() ==> #[trigger] job_after_call(calls[i], args[i]).job.data.index == i + 1,
        calls.len() > 0 ==> job_after_call(calls[calls.len() - 1], args[calls.len() - 1]).client.data.job_count == calls.len(),
        forall|i: int| 0 <= i < calls.len() ==> #[trigger] calls[i].client.data.owner == owner,
        forall|i: int, j: int|
            0 <= i < calls.len() && 0 <= j < calls.len() && i != j ==> #[trigger] job_seeds(calls[i].client.data.owner@, calls[i].client.data.job_count)
                != #[trigger] job_seeds(calls[j].client.data.owner@, calls[j].client.data.job_count),
{
    assert forall|i: int| 0 <= i < calls.len() implies #[trigger] job_after_call(calls[i], args[i]).job.data.index == i + 1 by {
        lemma_job_series_counts(registration, owner, client_bump, calls, args, i);
    }
    assert forall|i: int| 0 <= i < calls.len() implies #[trigger] calls[i].client.data.owner == owner by {
        lemma_job_series_counts(registration, owner, client_bump, calls, args, i);
    }
    if calls.len() > 0 {
        lemma_job_series_counts(registration, owner, client_bump, calls, args, calls.len() - 1);
    }
    assert forall|i: int, j: int|
        0 <= i < calls.len() && 0 <= j < calls.len() && i != j implies #[trigger] job_seeds(calls[i].client.data.owner@, calls[i].client.data.job_count)
            != #[trigger] job_seeds(calls[j].client.data.owner@, calls[j].client.data.job_count) by {
        lemma_job_series_counts(registration, owner, client_bump, calls, args, i);
        lemma_job_series_counts(registration, owner, client_bump, calls, args, j);
        lemma_job_seeds_distinct(owner@, calls[i].client.data.job_count, calls[j].client.data.job_count);
    }
}

/// In a series of k job creations on a freshly registered client whose
/// account checks all pass, the i-th job lies at the canonical address of the
/// seeds of the owner and number i - 1; and since an account the series has
/// created stays allocated, no two jobs of the series share an address.
pub proof fn job_series_addresses_distinct(
    registration: InitializeClient,
    owner: Pubkey,
    client_bump: u8,
    calls: Seq<InitializeJob>,
    args: Seq<(u8, String, u64, bool, i64, i64)>,
    program_id: Seq<u8>,
)
    requires
        is_job_series(registration, owner, client_bump, calls, args),
        forall|i: int| 0 <= i < calls.len() ==> (#[trigger] calls[i]).spec_try_accounts(program_id) is Ok,
        forall|i: int, j: int|
            #![trigger calls[i], calls[j]]
            0 <= i < j < calls.len() && calls[j].job.key@ == calls[i].job.key@ ==> calls[j].job.is_allocated,
    ensures
        forall|i: int| 0 <= i < calls.len() ==> found_bump(job_seeds(owner@, i as u64), (#[trigger] calls[i]).job.key@, program_id) is Ok,
        forall|i: int, j: int|
            #![trigger calls[i], calls[j]]
            0 <= i < calls.len() && 0 <= j < calls.len() && i != j ==> calls[i].job.key@ != calls[j].job.key@,
{
    assert forall|i: int| 0 <= i < calls.len() implies found_bump(job_seeds(owner@, i as u64), (#[trigger] calls[i]).job.key@, program_id) is Ok
        && !calls[i].job.is_allocated by {
        lemma_job_series_counts(registration, owner, client_bump, calls, args, i);
        assert(calls[i].spec_try_accounts(program_id) is Ok);
    }
    assert forall|i: int, j: int|
        #![trigger calls[i], calls[j]]
        0 <= i < calls.len() && 0 <= j < calls.len() && i != j implies calls[i].job.key@ != calls[j].job.key@ by {
        assert(!calls[i].job.is_allocated && !calls[j].job.is_allocated);
    }
}

/// An account created at its canonical address passes every later check
/// that recreates the address from the same seeds and the bump found then.
pub proof fn created_account_passes_seed_checks(seeds: Seq<Seq<u8>>, key: Seq<u8>, program_id: Seq<u8>, bump: u8)
    requires
        found_bump(seeds, key, program_id) == Ok::<u8, ErrorCode>(bump),
    ensures
        seeds_match(seeds, bump, key, program_id),
{
}

/// A new job's address is checked against seeds with the client's job count
/// before the increment, but the job records the count after it as its
/// number; the seeds that later checks take from the job differ from the
/// seeds its address was checked against.
pub proof fn job_number_differs_from_address_seeds(
    a: InitializeJob,
    job_bump: u8,
    description: String,
    price: u64,
    is_native: bool,
    deadline: i64,
    now: i64,
)
    requires
        a.client.data.job_count < u64::MAX,
    ensures
        ({
            let job = after_initialize_job(a, job_bump, description, price, is_native, deadline, now).job.data;
            job_seeds(job.client@, job.index) != job_seeds(a.client.data.owner@, a.client.data.job_count)
        }),
{
    lemma_job_seeds_distinct(a.client.data.owner@, (a.client.data.job_count + 1) as u64, a.client.data.job_count);
}

/// Each new job takes the next number of its client: the count goes up by
/// one and the job records the new count.
pub proof fn jobs_are_numbered_in_order(
    a: InitializeJob,
    job_bump: u8,
    description: String,
    price: u64,
    is_native: bool,
    deadline: i64,
    now: i64,
)
    requires
        a.client.data.job_count < u64::MAX,
    ensures
        ({
            let after = after_initialize_job(a, job_bump, description, price, is_native, deadline, now);
            &&& after.client.data.job_count == a.client.data.job_count + 1
            &&& after.job.data.index == after.client.data.job_count
        }),
{
}

/// Once set when the job is created, a job's price is changed by no handler;
/// every transfer the handlers ask for moves that price.
pub proof fn price_is_fixed_at_creation(
    init: InitializeJob,
    job_bump: u8,
    description: String,
    price: u64,
    is_native: bool,
    deadline: i64,
    now: i64,
    publish: PublishJob,
    cancel: CancelJob,
    start: StartJob,
    submission_bump: u8,
    worker: Pubkey,
    validate: ValidateSubmission,
)
    ensures
        after_initialize_job(init, job_bump, description, price, is_native, deadline, now).job.data.price == price,
        after_publish_job(publish).job.data.price == publish.job.data.price,
        after_cancel_job(cancel).job.data.price == cancel.job.data.price,
        after_start_job(start, submission_bump, worker, now).job.data.price == start.job.data.price,
        after_validate_submission(validate).job.data.price == validate.job.data.price,
{
}

/// No handler marks a submission as winner: starting, handing in and
/// accepting leave the mark as it was, and a new submission is unmarked.
pub proof fn no_handler_marks_a_winner(
    start: StartJob,
    bump: u8,
    worker: Pubkey,
    now: i64,
    publish: PublishSubmission,
    hash: String,
    validate: ValidateSubmission,
)
    ensures
        after_start_job(start, bump, worker, now).submission.data.is_winner == start.submission.data.is_winner,
        after_publish_submission(publish, hash, now).submission.data.is_winner == publish.submission.data.is_winner,
        after_validate_submission(validate).submission == validate.submission,
{
}

/// Starting, validating and canceling move a job into the active, validated
/// and canceled state; publishing makes any job published, a canceled or
/// validated one included.
pub proof fn state_after_handlers(
    publish: PublishJob,
    cancel: CancelJob,
    start: StartJob,
    bump: u8,
    worker: Pubkey,
    now: i64,
    validate: ValidateSubmission,
)
    ensures
        after_publish_job(publish).job.data.state == JobState::PUBLISHED,
        after_publish_job(publish).job.data.state.spec_is_cancelable(),
        after_cancel_job(cancel).job.data.state == JobState::CANCELED,
        after_start_job(start, bump, worker, now).job.data.state == JobState::ACTIVE,
        after_validate_submission(validate).job.data.state == JobState::VALIDATED,
        !after_validate_submission(validate).job.data.state.spec_is_open(),
{
}

/// A client always fits its account; a job fits only with a description of
/// at most 87 bytes, a submission only with a hash of at most 32 bytes.
pub proof fn stored_sizes(client: Client, job: Job, submission: Submission)
    ensures
        client.stored_len() <= Client::SPACE,
        job.stored_len() <= Job::SPACE <==> stored_string_len(&job.job_description) <= 4 + 87,
        submission.stored_len() <= Submission::SPACE <==> stored_string_len(&submission.submission_hash) <= 4 + 32,
{
}

/// Two jobs agree on every field that no handler but `initialize_job` writes:
/// all but the state, the winner and the winning submission.
pub open spec fn same_job_terms(x: Job, y: Job) -> bool {
    &&& x.bump == y.bump
    &&& x.index == y.index
    &&& x.client == y.client
    &&& x.job_description == y.job_description
    &&& x.validator == y.validator
    &&& x.submission_count == y.submission_count
    &&& x.price == y.price
    &&& x.currency == y.currency
    &&& x.is_native == y.is_native
    &&& x.publish_date == y.publish_date
    &&& x.deadline == y.deadline
    &&& x.vault_token_account == y.vault_token_account
    &&& x.vault_bump == y.vault_bump
}

/// An account keeps its address, its flags and its data.
pub open spec fn same_account<T>(x: crate::state::Account<T>, y: crate::state::Account<T>) -> bool {
    &&& x.key == y.key
    &&& x.is_writable == y.is_writable
    &&& x.is_allocated == y.is_allocated
    &&& x.data == y.data
}

/// Registering a client records the owner and the bump it is given and a
/// job count of zero, whatever the account held; nothing else changes.
pub proof fn registration_records_its_arguments(a: InitializeClient, client: Pubkey, bump: u8)
    ensures
        ({
            let r = after_initialize_client(a, client, bump);
            &&& r.client.data.owner == client
            &&& r.client.data.bump == bump
            &&& r.client.data.job_count == 0
            &&& r.client.key == a.client.key
            &&& r.client.is_writable == a.client.is_writable
            &&& r.client.is_allocated == a.client.is_allocated
            &&& r.signer == a.signer
            &&& r.system_program == a.system_program
        }),
{
}

/// Creating a job records each argument of the call in the job: the
/// description, price, native flag and deadline as given, the publish date as
/// `now`, the bump filed under the job seed; the job is pending, numbered with
/// the client's next count, owned and validated by the client's owner, pays
/// into the instruction's vault in its currency and has no submissions. The
/// client's count goes up by one; no other account changes.
pub proof fn new_job_records_its_arguments(
    a: InitializeJob,
    job_bump: u8,
    description: String,
    price: u64,
    is_native: bool,
    deadline: i64,
    now: i64,
)
    requires
        a.client.data.job_count < u64::MAX,
    ensures
        ({
            let r = after_initialize_job(a, job_bump, description, price, is_native, deadline, now);
            &&& r.job.data.is_native == is_native
            &&& r.job.data.price == price
            &&& r.job.data.job_description == description
            &&& r.job.data.deadline == deadline
            &&& r.job.data.publish_date == now
            &&& r.job.data.bump == job_bump
            &&& r.job.data.state == JobState::PENDING
            &&& r.job.data.index == a.client.data.job_count + 1
            &&& r.job.data.client == a.client.data.owner
            &&& r.job.data.validator == a.client.data.owner
            &&& r.job.data.currency == a.currency
            &&& r.job.data.vault_token_account == a.vault.key
            &&& r.job.data.submission_count == 0
            &&& r.job.data.winner == a.job.data.winner
            &&& r.job.data.winning_submission == a.job.data.winning_submission
            &&& r.job.data.vault_bump == a.job.data.vault_bump
            &&& r.job.key == a.job.key
            &&& r.job.is_writable == a.job.is_writable
            &&& r.job.is_allocated == a.job.is_allocated
            &&& r.client.data.job_count == a.client.data.job_count + 1
            &&& r.client.data.owner == a.client.data.owner
            &&& r.client.data.bump == a.client.data.bump
            &&& r.client.key == a.client.key
            &&& r.client.is_writable == a.client.is_writable
            &&& r.client.is_allocated == a.client.is_allocated
            &&& r.signer == a.signer
            &&& same_account(r.vault, a.vault)
            &&& r.currency == a.currency
            &&& r.system_program == a.system_program
            &&& r.token_program == a.token_program
        }),
{
}

/// Publishing and canceling change only the job's state.
pub proof fn publish_and_cancel_change_only_the_state(publish: PublishJob, cancel: CancelJob)
    ensures
        ({
            let r = after_publish_job(publish);
            &&& r.job.data.state == JobState::PUBLISHED
            &&& same_job_terms(r.job.data, publish.job.data)
            &&& r.job.data.winner == publish.job.data.winner
            &&& r.job.data.winning_submission == publish.job.data.winning_submission
            &&& r.job.key == publish.job.key
            &&& r.job.is_writable == publish.job.is_writable
            &&& r.job.is_allocated == publish.job.is_allocated
            &&& r.signer == publish.signer
            &&& same_account(r.vault, publish.vault)
            &&& same_account(r.client_token_account, publish.client_token_account)
            &&& r.currency == publish.currency
            &&& r.token_program == publish.token_program
        }),
        ({
            let r = after_cancel_job(cancel);
            &&& r.job.data.state == JobState::CANCELED
            &&& same_job_terms(r.job.data, cancel.job.data)
            &&& r.job.data.winner == cancel.job.data.winner
            &&& r.job.data.winning_submission == cancel.job.data.winning_submission
            &&& r.job.key == cancel.job.key
            &&& r.job.is_writable == cancel.job.is_writable
            &&& r.job.is_allocated == cancel.job.is_allocated
            &&& r.signer == cancel.signer
            &&& same_account(r.vault, cancel.vault)
            &&& same_account(r.client_token_account, cancel.client_token_account)
            &&& r.currency == cancel.currency
            &&& r.token_program == cancel.token_program
        }),
{
}

/// Starting a worker records, in the new submission, the worker named by the
/// call (whoever signs and pays), the job's address, the bump given and the
/// start time `now`; the job becomes active and keeps everything else.
pub proof fn start_records_the_named_worker(a: StartJob, bump: u8, worker: Pubkey, now: i64)
    ensures
        ({
            let r = after_start_job(a, bump, worker, now);
            &&& r.submission.data.worker == worker
            &&& r.submission.data.job == a.job.key
            &&& r.submission.data.bump == bump
            &&& r.submission.data.submission_started == now
            &&& r.submission.data.submission_hash == a.submission.data.submission_hash
            &&& r.submission.data.submission_date == a.submission.data.submission_date
            &&& r.submission.data.is_validated == a.submission.data.is_validated
            &&& r.submission.data.is_winner == a.submission.data.is_winner
            &&& r.submission.key == a.submission.key
            &&& r.submission.is_writable == a.submission.is_writable
            &&& r.submission.is_allocated == a.submission.is_allocated
            &&& r.job.data.state == JobState::ACTIVE
            &&& same_job_terms(r.job.data, a.job.data)
            &&& r.job.data.winner == a.job.data.winner
            &&& r.job.data.winning_submission == a.job.data.winning_submission
            &&& r.job.key == a.job.key
            &&& r.job.is_writable == a.job.is_writable
            &&& r.job.is_allocated == a.job.is_allocated
            &&& r.signer == a.signer
            &&& r.system_program == a.system_program
        }),
        // The worker recorded depends on the call's argument alone.
        forall|other: StartJob|
            other.job.key == a.job.key ==> #[trigger] after_start_job(other, bump, worker, now).submission.data.worker
                == after_start_job(a, bump, worker, now).submission.data.worker,
{
}

/// Handing in work stores the hash and the time of this call, whatever was
/// stored before; so a second hand-in overwrites the first, and the outcome
/// of two hand-ins is that of the last alone.
pub proof fn hand_in_overwrites(a: PublishSubmission, hash: String, now: i64, hash2: String, now2: i64)
    ensures
        ({
            let r = after_publish_submission(a, hash, now);
            &&& r.submission.data.submission_date == now
            &&& r.submission.data.submission_hash == hash
            &&& r.submission.data.bump == a.submission.data.bump
            &&& r.submission.data.job == a.submission.data.job
            &&& r.submission.data.worker == a.submission.data.worker
            &&& r.submission.data.submission_started == a.submission.data.submission_started
            &&& r.submission.data.is_validated == a.submission.data.is_validated
            &&& r.submission.data.is_winner == a.submission.data.is_winner
            &&& r.submission.key == a.submission.key
            &&& r.submission.is_writable == a.submission.is_writable
            &&& r.submission.is_allocated == a.submission.is_allocated
            &&& r.signer == a.signer
        }),
        after_publish_submission(after_publish_submission(a, hash, now), hash2, now2) == after_publish_submission(a, hash2, now2),
        after_publish_submission(after_publish_submission(a, hash, now), hash2, now2).submission.data.submission_date == now2,
{
}

/// Accepting a submission names its worker and address as the job's winner
/// and winning submission and validates the job; nothing else changes.
pub proof fn validation_names_the_submission(a: ValidateSubmission)
    ensures
        ({
            let r = after_validate_submission(a);
            &&& r.job.data.state == JobState::VALIDATED
            &&& r.job.data.winner == a.submission.data.worker
            &&& r.job.data.winning_submission == a.submission.key
            &&& same_job_terms(r.job.data, a.job.data)
            &&& r.job.key == a.job.key
            &&& r.job.is_writable == a.job.is_writable
            &&& r.job.is_allocated == a.job.is_allocated
            &&& same_account(r.submission, a.submission)
            &&& r.signer == a.signer
        }),
{
}

/// The seeds of each derived address, in order: the seed strings are the
/// program's names, a client's account is derived from the client seed and
/// the owner; a job's from the job seed, the client and the job's number in
/// eight little-endian bytes; a vault's from the vault seed and the job's
/// address; a submission's from the submission seed, the worker and the
/// job's address; the vault authority's from its seed alone.
pub proof fn seed_layouts(owner: Seq<u8>, client: Seq<u8>, index: u64, job: Seq<u8>, worker: Seq<u8>)
    ensures
        CLIENT_SEED@ == "DSYNC_CLIENT"@,
        JOB_SEED@ == "DSYNC_JOB"@,
        VAULT_SEED@ == "DSYNC_VAULT"@,
        SUBMISSION_SEED@ == "DSYNC_SUBMISSION"@,
        AUTHORITY_SEED@ == "DSYNC_AUTHORITY"@,
        client_seeds(owner).len() == 2,
        client_seeds(owner)[0] == CLIENT_SEED.spec_bytes(),
        client_seeds(owner)[1] == owner,
        job_seeds(client, index).len() == 3,
        job_seeds(client, index)[0] == JOB_SEED.spec_bytes(),
        job_seeds(client, index)[1] == client,
        job_seeds(client, index)[2].len() == 8,
        vstd::bytes::spec_u64_from_le_bytes(job_seeds(client, index)[2]) == index,
        vault_seeds(job).len() == 2,
        vault_seeds(job)[0] == VAULT_SEED.spec_bytes(),
        vault_seeds(job)[1] == job,
        submission_seeds(worker, job).len() == 3,
        submission_seeds(worker, job)[0] == SUBMISSION_SEED.spec_bytes(),
        submission_seeds(worker, job)[1] == worker,
        submission_seeds(worker, job)[2] == job,
        authority_seeds().len() == 1,
        authority_seeds()[0] == AUTHORITY_SEED.spec_bytes(),
{
    vstd::bytes::lemma_auto_spec_u64_to_from_le_bytes();
}

} // verus!
