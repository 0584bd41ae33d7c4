use vstd::prelude::*;

use crate::accounts::{
    CancelJob, ClaimReward, Context, InitializeClient, InitializeJob, PublishJob, PublishSubmission, StartJob,
    ValidateSubmission,
};
use crate::cpi::{AuthorityType, TokenCpi};
use crate::error::ErrorCode;
use crate::pda::{
    authority_seeds, canonical_address, find_canonical, make_authority_seeds, push_bump, with_bump, CLIENT_SEED,
    JOB_SEED, SUBMISSION_SEED,
};
use crate::pubkey::Pubkey;
use crate::state::{Account, Client, Job, JobState, Submission};

verus! {

/// The vault authority's seeds with its bump, as the single signer of a call.
fn authority_signer(bump: u8) -> (s: Vec<Vec<Vec<u8>>>)
    ensures
        s.deep_view() == seq![with_bump(authority_seeds(), bump)],
{
    let seeds = make_authority_seeds();
    let signer = push_bump(&seeds, bump);
    let mut s: Vec<Vec<Vec<u8>>> = Vec::new();
    s.push(signer);
    assert(s.deep_view() =~= seq![with_bump(authority_seeds(), bump)]);
    s
}

/// The accounts after registering `client` with bump `bump`: the client
/// account records the owner, a job count of zero and the bump.
pub open spec fn after_initialize_client(a: InitializeClient, client: Pubkey, bump: u8) -> InitializeClient {
    InitializeClient {
        client: Account { data: Client { owner: client, job_count: 0, bump: bump }, ..a.client },
        ..a
    }
}

/// Registers a client: the client account records its owner, a job count of
/// zero and the bump filed under the client seed.
pub fn initialize_client(ctx: &mut Context<InitializeClient>, client: Pubkey)
    requires
        old(ctx).bumps@.contains_key(CLIENT_SEED@),
    ensures
        final(ctx).program_id == old(ctx).program_id,
        final(ctx).bumps == old(ctx).bumps,
        final(ctx).accounts == after_initialize_client(old(ctx).accounts, client, old(ctx).bumps@[CLIENT_SEED@]),
{
    let bump = ctx.bumps.get(CLIENT_SEED).unwrap();
    ctx.accounts.client.data.owner = client;
    ctx.accounts.client.data.job_count = 0;
    ctx.accounts.client.data.bump = bump;
}

/// The accounts after creating a job: the client's job count goes up by one,
/// and the job is numbered with the new count, owned and validated by the
/// client's owner, pending, priced and dated as given, and pays into the
/// instruction's vault in its currency.
pub open spec fn after_initialize_job(
    a: InitializeJob,
    job_bump: u8,
    description: String,
    price: u64,
    is_native: bool,
    deadline: i64,
    now: i64,
) -> InitializeJob {
    InitializeJob {
        client: Account { data: Client { job_count: (a.client.data.job_count + 1) as u64, ..a.client.data }, ..a.client },
        job: Account {
            data: Job {
                bump: job_bump,
                index: (a.client.data.job_count + 1) as u64,
                client: a.client.data.owner,
                state: JobState::PENDING,
                job_description: description,
                validator: a.client.data.owner,
                submission_count: 0,
                price: price,
                currency: a.currency,
                is_native: is_native,
                publish_date: now,
                deadline: deadline,
                vault_token_account: a.vault.key,
                ..a.job.data
            },
            ..a.job
        },
        ..a
    }
}

/// Creates a job for the client: the client's job count goes up by one, the
/// job account records the new job (see [`after_initialize_job`]), and the
/// vault is to be handed to the program's vault authority. `now` is the
/// cluster's current time. Fails, changing nothing, where no bump gives the
/// vault authority an address.
pub fn initialize_job(
    ctx: &mut Context<InitializeJob>,
    _description: String,
    _price: u64,
    _is_native: bool,
    _deadline: i64,
    now: i64,
) -> (r: Result<TokenCpi, ErrorCode>)
    requires
        old(ctx).bumps@.contains_key(JOB_SEED@),
        old(ctx).accounts.client.data.job_count < u64::MAX,
    ensures
        match canonical_address(authority_seeds(), old(ctx).program_id@) {
            None => {
                &&& r == Err::<TokenCpi, ErrorCode>(ErrorCode::BumpSeedNotFound)
                &&& *final(ctx) == *old(ctx)
            },
            Some((vault_authority, _)) => {
                &&& r matches Ok(TokenCpi::SetAuthority { ctx: c, authority_type, new_authority })
                &&& c.program == old(ctx).accounts.token_program
                &&& c.accounts.account_or_mint == old(ctx).accounts.vault.key
                &&& c.accounts.current_authority == old(ctx).accounts.signer.key
                &&& c.signer_seeds@.len() == 0
                &&& authority_type == AuthorityType::AccountOwner
                &&& new_authority matches Some(k) && k@ == vault_authority
                &&& final(ctx).program_id == old(ctx).program_id
                &&& final(ctx).bumps == old(ctx).bumps
                &&& final(ctx).accounts == after_initialize_job(
                    old(ctx).accounts,
                    old(ctx).bumps@[JOB_SEED@],
                    _description,
                    _price,
                    _is_native,
                    _deadline,
                    now,
                )
            },
        },
{
    let seeds = make_authority_seeds();
    let (vault_authority, _vault_authority_bump) = match find_canonical(&seeds, &ctx.program_id) {
        Some(found) => found,
        None => return Err(ErrorCode::BumpSeedNotFound),
    };
    let job_bump = ctx.bumps.get(JOB_SEED).unwrap();

    ctx.accounts.client.data.job_count = ctx.accounts.client.data.job_count + 1;

    let owner = ctx.accounts.client.data.owner;
    let job_count = ctx.accounts.client.data.job_count;
    let currency = ctx.accounts.currency;
    let vault_key = ctx.accounts.vault.key;

    let task = &mut ctx.accounts.job.data;
    task.bump = job_bump;
    task.index = job_count;
    task.client = owner;
    task.state = JobState::PENDING;
    task.job_description = _description;
    task.validator = owner;
    task.submission_count = 0;
    task.price = _price;
    task.currency = currency;
    task.is_native = _is_native;
    task.publish_date = now;
    task.deadline = _deadline;
    task.vault_token_account = vault_key;

    Ok(TokenCpi::SetAuthority {
        ctx: ctx.accounts.set_authority(),
        authority_type: AuthorityType::AccountOwner,
        new_authority: Some(vault_authority),
    })
}

/// The accounts after publishing: the job is published.
pub open spec fn after_publish_job(a: PublishJob) -> PublishJob {
    PublishJob { job: Account { data: Job { state: JobState::PUBLISHED, ..a.job.data }, ..a.job }, ..a }
}

/// Publishes a job: the job becomes published, and its price is to be moved
/// from the client's token account into the vault.
pub fn publish_job(ctx: &mut Context<PublishJob>) -> (r: TokenCpi)
    ensures
        r matches TokenCpi::Transfer { ctx: c, amount } && {
            &&& amount == old(ctx).accounts.job.data.price
            &&& c.program == old(ctx).accounts.token_program
            &&& c.accounts.from == old(ctx).accounts.client_token_account.key
            &&& c.accounts.to == old(ctx).accounts.vault.key
            &&& c.accounts.authority == old(ctx).accounts.vault.key
            &&& c.signer_seeds@.len() == 0
        },
        final(ctx).program_id == old(ctx).program_id,
        final(ctx).bumps == old(ctx).bumps,
        final(ctx).accounts == after_publish_job(old(ctx).accounts),
{
    ctx.accounts.job.data.state = JobState::PUBLISHED;
    let amount = ctx.accounts.job.data.price;
    TokenCpi::Transfer { ctx: ctx.accounts.into_transfer_to_pda_context(), amount }
}

/// The accounts after canceling: the job is canceled.
pub open spec fn after_cancel_job(a: CancelJob) -> CancelJob {
    CancelJob { job: Account { data: Job { state: JobState::CANCELED, ..a.job.data }, ..a.job }, ..a }
}

/// Cancels a published or pending job: the job becomes canceled, and its
/// price is to be moved from the vault back to the client's token account,
/// signed by the vault authority. Fails, changing nothing, where no bump
/// gives the vault authority an address.
pub fn cancel_job(ctx: &mut Context<CancelJob>) -> (r: Result<TokenCpi, ErrorCode>)
    requires
        old(ctx).accounts.job.data.state.is_cancelable(),
    ensures
        match canonical_address(authority_seeds(), old(ctx).program_id@) {
            None => {
                &&& r == Err::<TokenCpi, ErrorCode>(ErrorCode::BumpSeedNotFound)
                &&& *final(ctx) == *old(ctx)
            },
            Some((_, bump)) => {
                &&& r matches Ok(TokenCpi::Transfer { ctx: c, amount })
                &&& amount == old(ctx).accounts.job.data.price
                &&& c.program == old(ctx).accounts.token_program
                &&& c.accounts.from == old(ctx).accounts.vault.key
                &&& c.accounts.to == old(ctx).accounts.client_token_account.key
                &&& c.accounts.authority == old(ctx).accounts.vault.key
                &&& c.signer_seeds.deep_view() == seq![with_bump(authority_seeds(), bump)]
                &&& final(ctx).program_id == old(ctx).program_id
                &&& final(ctx).bumps == old(ctx).bumps
                &&& final(ctx).accounts == after_cancel_job(old(ctx).accounts)
            },
        },
{
    let seeds = make_authority_seeds();
    let (_vault_authority, vault_authority_bump) = match find_canonical(&seeds, &ctx.program_id) {
        Some(found) => found,
        None => return Err(ErrorCode::BumpSeedNotFound),
    };
    let transfer = ctx.accounts.into_transfer_to_client_context().with_signer(authority_signer(vault_authority_bump));
    let amount = ctx.accounts.job.data.price;
    ctx.accounts.job.data.state = JobState::CANCELED;
    Ok(TokenCpi::Transfer { ctx: transfer, amount })
}

/// The accounts after starting a worker: the job is active, and the
/// submission records `bump`, the job's address, the worker and the start
/// time.
pub open spec fn after_start_job(a: StartJob, bump: u8, worker: Pubkey, now: i64) -> StartJob {
    StartJob {
        job: Account { data: Job { state: JobState::ACTIVE, ..a.job.data }, ..a.job },
        submission: Account {
            data: Submission {
                bump: bump,
                job: a.job.key,
                worker: worker,
                submission_started: now,
                ..a.submission.data
            },
            ..a.submission
        },
        ..a
    }
}

/// Starts a worker on an open job: the job becomes active, and the new
/// submission records the bump filed under the submission seed, the job's
/// address, the worker and the start time `now`.
pub fn start_job(ctx: &mut Context<StartJob>, _worker: Pubkey, now: i64)
    requires
        old(ctx).accounts.job.data.state.is_open(),
        old(ctx).bumps@.contains_key(SUBMISSION_SEED@),
    ensures
        final(ctx).program_id == old(ctx).program_id,
        final(ctx).bumps == old(ctx).bumps,
        final(ctx).accounts == after_start_job(old(ctx).accounts, old(ctx).bumps@[SUBMISSION_SEED@], _worker, now),
{
    if ctx.accounts.job.data.state != JobState::ACTIVE {
        ctx.accounts.job.data.state = JobState::ACTIVE;
    }
    let bump = ctx.bumps.get(SUBMISSION_SEED).unwrap();
    let job_key = ctx.accounts.job.key;
    let sub = &mut ctx.accounts.submission.data;
    sub.bump = bump;
    sub.job = job_key;
    sub.worker = _worker;
    sub.submission_started = now;
}

/// The accounts after handing in work: the submission records the hash and
/// the time.
pub open spec fn after_publish_submission(a: PublishSubmission, hash: String, now: i64) -> PublishSubmission {
    PublishSubmission {
        submission: Account {
            data: Submission { submission_date: now, submission_hash: hash, ..a.submission.data },
            ..a.submission
        },
        ..a
    }
}

/// Hands in a submission's work: the submission records its hash and the
/// time `now`.
pub fn publish_submission(ctx: &mut Context<PublishSubmission>, _hash: String, now: i64)
    ensures
        final(ctx).program_id == old(ctx).program_id,
        final(ctx).bumps == old(ctx).bumps,
        final(ctx).accounts == after_publish_submission(old(ctx).accounts, _hash, now),
{
    let sub = &mut ctx.accounts.submission.data;
    sub.submission_date = now;
    sub.submission_hash = _hash;
}

/// The accounts after accepting a submission: the job is validated and names
/// the submission's worker as winner and the submission as winning.
pub open spec fn after_validate_submission(a: ValidateSubmission) -> ValidateSubmission {
    ValidateSubmission {
        job: Account {
            data: Job {
                state: JobState::VALIDATED,
                winner: a.submission.data.worker,
                winning_submission: a.submission.key,
                ..a.job.data
            },
            ..a.job
        },
        ..a
    }
}

/// Accepts a submission on an open job: the job becomes validated and names
/// the submission's worker as winner and the submission as winning.
pub fn validate_submission(ctx: &mut Context<ValidateSubmission>)
    requires
        old(ctx).accounts.job.data.state.is_open(),
    ensures
        final(ctx).program_id == old(ctx).program_id,
        final(ctx).bumps == old(ctx).bumps,
        final(ctx).accounts == after_validate_submission(old(ctx).accounts),
{
    let worker = ctx.accounts.submission.data.worker;
    let sub_key = ctx.accounts.submission.key;
    let task = &mut ctx.accounts.job.data;
    task.state = JobState::VALIDATED;
    task.winner = worker;
    task.winning_submission = sub_key;
}

/// Pays out a job: its price is to be moved from the vault to the winner's
/// token account, signed by the vault authority. Fails where no bump gives
/// the vault authority an address.
pub fn calim_reward(ctx: &Context<ClaimReward>) -> (r: Result<TokenCpi, ErrorCode>)
    ensures
        match canonical_address(authority_seeds(), ctx.program_id@) {
            None => r == Err::<TokenCpi, ErrorCode>(ErrorCode::BumpSeedNotFound),
            Some((_, bump)) => {
                &&& r matches Ok(TokenCpi::Transfer { ctx: c, amount })
                &&& amount == ctx.accounts.job.data.price
                &&& c.program == ctx.accounts.token_program
                &&& c.accounts.from == ctx.accounts.vault.key
                &&& c.accounts.to == ctx.accounts.winning_token_account.key
                &&& c.accounts.authority == ctx.accounts.vault.key
                &&& c.signer_seeds.deep_view() == seq![with_bump(authority_seeds(), bump)]
            },
        },
{
    let seeds = make_authority_seeds();
    let (_vault_authority, vault_authority_bump) = match find_canonical(&seeds, &ctx.program_id) {
        Some(found) => found,
        None => return Err(ErrorCode::BumpSeedNotFound),
    };
    let transfer = ctx.accounts.into_transfer_to_worker_context().with_signer(authority_signer(vault_authority_bump));
    Ok(TokenCpi::Transfer { ctx: transfer, amount: ctx.accounts.job.data.price })
}

} // verus!
