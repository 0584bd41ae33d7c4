use dsync_rust::accounts::{
    check_created, check_found, CancelJob, ClaimReward, Context, InitializeClient, InitializeJob, PublishJob, PublishSubmission, StartJob,
    ValidateSubmission,
};
use dsync_rust::bumps::Bumps;
use dsync_rust::cpi::{AuthorityType, TokenCpi};
use dsync_rust::dsync_rust::{
    calim_reward, cancel_job, initialize_client, initialize_job, publish_job, publish_submission, start_job,
    validate_submission,
};
use dsync_rust::error::ErrorCode;
use dsync_rust::pda::{
    create_with_bump, find_canonical, make_authority_seeds, make_client_seeds, make_job_seeds, make_submission_seeds,
    make_vault_seeds, within_limits, AUTHORITY_SEED, CLIENT_SEED, JOB_SEED, SUBMISSION_SEED,
};
use dsync_rust::pubkey::Pubkey;
use dsync_rust::state::{Account, Client, Job, JobState, Signer, Submission, TokenAccount};

fn key(n: u8) -> Pubkey {
    Pubkey::new_from_array([n; 32])
}

fn program() -> Pubkey {
    key(200)
}

fn token_program() -> Pubkey {
    Pubkey::token_program_id()
}

fn pda(seeds: &Vec<Vec<u8>>) -> (Pubkey, u8) {
    find_canonical(seeds, &program()).expect("a bump exists")
}

fn token(mint: Pubkey, owner: Pubkey) -> TokenAccount {
    TokenAccount { mint, owner }
}

fn signer(k: Pubkey) -> Signer {
    Signer { key: k, is_signer: true, is_writable: true }
}

fn acc<T>(k: Pubkey, data: T) -> Account<T> {
    Account { key: k, is_writable: true, is_allocated: true, data }
}

fn fresh<T>(k: Pubkey, data: T) -> Account<T> {
    Account { key: k, is_writable: true, is_allocated: false, data }
}

#[test]
fn job_state_defaults_to_pending() {
    assert_eq!(JobState::default(), JobState::PENDING);
}

#[test]
fn seed_constants() {
    assert_eq!(CLIENT_SEED, "DSYNC_CLIENT");
    assert_eq!(JOB_SEED, "DSYNC_JOB");
    assert_eq!(SUBMISSION_SEED, "DSYNC_SUBMISSION");
    assert_eq!(AUTHORITY_SEED, "DSYNC_AUTHORITY");
    assert_eq!(make_job_seeds(&key(1), 3)[2], vec![3, 0, 0, 0, 0, 0, 0, 0]);
    assert_eq!(make_client_seeds(&key(7))[0], b"DSYNC_CLIENT".to_vec());
}

#[test]
fn space_constants() {
    assert_eq!(Client::SPACE, 49);
    assert_eq!(Job::SPACE, 335);
    assert_eq!(Submission::SPACE, 127);
}

#[test]
fn found_address_matches_solana() {
    let seeds = make_authority_seeds();
    let (addr, bump) = pda(&seeds);
    let id = anchor_lang::prelude::Pubkey::new_from_array([200; 32]);
    let (expected, expected_bump) = anchor_lang::prelude::Pubkey::find_program_address(&[b"DSYNC_AUTHORITY"], &id);
    assert_eq!(addr.bytes, expected.to_bytes());
    assert_eq!(bump, expected_bump);
    assert!(!addr.key_eq(&program()));
}

#[test]
fn found_address_is_recreated_with_its_bump() {
    let seeds = make_client_seeds(&key(1));
    let (addr, bump) = pda(&seeds);
    let again = create_with_bump(&seeds, bump, &program()).expect("recreated");
    assert!(again.key_eq(&addr));
}

#[test]
fn too_long_seed_creates_nothing() {
    let seeds = vec![vec![1u8; 33]];
    assert!(create_with_bump(&seeds, 1, &program()).is_none());
    assert!(find_canonical(&seeds, &program()).is_none());
}

#[test]
fn bumps_insert_and_get() {
    let mut b = Bumps::new();
    assert_eq!(b.get("client"), None);
    b.insert("client", 7);
    b.insert("vault", 9);
    b.insert("client", 8);
    assert_eq!(b.get("client"), Some(8));
    assert_eq!(b.get("vault"), Some(9));
    assert_eq!(b.get(CLIENT_SEED), None);
}

fn init_client_accounts(owner: Pubkey) -> InitializeClient {
    let (addr, _) = pda(&make_client_seeds(&owner));
    InitializeClient {
        signer: signer(owner),
        client: fresh(addr, Client { bump: 9, owner: key(77), job_count: 3 }),
        system_program: Pubkey::system_program_id(),
    }
}

#[test]
fn initialize_client_accounts_file_bump_under_account_name() {
    let owner = key(1);
    let mut accounts = init_client_accounts(owner);
    let (_, bump) = pda(&make_client_seeds(&owner));
    let bumps = accounts.try_accounts(&program(), &owner).expect("checks pass");
    assert_eq!(bumps.get("client"), Some(bump));
    assert_eq!(bumps.get(CLIENT_SEED), None);
    assert!(accounts.client.is_allocated);
    assert_eq!(accounts.client.data.job_count, 0);
    assert_eq!(accounts.client.data.bump, 0);
    assert!(accounts.client.data.owner.key_eq(&Pubkey::zero()));
}

#[test]
fn registering_a_client_twice_is_refused() {
    let owner = key(1);
    let mut accounts = init_client_accounts(owner);
    assert!(accounts.try_accounts(&program(), &owner).is_ok());
    assert_eq!(accounts.try_accounts(&program(), &owner).err(), Some(ErrorCode::AccountAlreadyInUse));
    assert!(accounts.client.is_allocated);
}

#[test]
fn initialize_client_wrong_address() {
    let mut accounts = init_client_accounts(key(1));
    accounts.client.key = key(9);
    assert_eq!(accounts.try_accounts(&program(), &key(1)).err(), Some(ErrorCode::ConstraintSeeds));
}

#[test]
fn initialize_client_records_owner() {
    let mut bumps = Bumps::new();
    bumps.insert(CLIENT_SEED, 254);
    let mut ctx = Context { program_id: program(), accounts: init_client_accounts(key(1)), bumps };
    initialize_client(&mut ctx, key(5));
    assert!(ctx.accounts.client.data.owner.key_eq(&key(5)));
    assert_eq!(ctx.accounts.client.data.job_count, 0);
    assert_eq!(ctx.accounts.client.data.bump, 254);
    assert!(ctx.accounts.exit().is_ok());
}

fn existing_client(owner: Pubkey, job_count: u64) -> Account<Client> {
    let (addr, bump) = pda(&make_client_seeds(&owner));
    acc(addr, Client { bump, owner, job_count })
}

fn init_job_accounts(owner: Pubkey, job_count: u64) -> InitializeJob {
    let client = existing_client(owner, job_count);
    let (job_addr, _) = pda(&make_job_seeds(&owner, job_count));
    let (vault_addr, _) = pda(&make_vault_seeds(&job_addr));
    InitializeJob {
        signer: signer(owner),
        client,
        job: fresh(job_addr, Job::zeroed()),
        vault: fresh(vault_addr, token(key(51), key(52))),
        currency: key(50),
        system_program: Pubkey::system_program_id(),
        token_program: token_program(),
    }
}

#[test]
fn initialize_job_accounts_pass() {
    let mut accounts = init_job_accounts(key(1), 4);
    let bumps = accounts.try_accounts(&program()).expect("checks pass");
    assert!(bumps.get("job").is_some());
    assert!(bumps.get("vault").is_some());
    assert_eq!(bumps.get(JOB_SEED), None);
    assert!(accounts.job.is_allocated && accounts.vault.is_allocated);
    assert!(accounts.vault.data.mint.key_eq(&key(50)));
    assert!(accounts.vault.data.owner.key_eq(&key(1)));
    assert_eq!(accounts.job.data.index, 0);
}

#[test]
fn initialize_job_existing_accounts_are_refused() {
    let mut accounts = init_job_accounts(key(1), 4);
    accounts.job.is_allocated = true;
    assert_eq!(accounts.try_accounts(&program()).err(), Some(ErrorCode::AccountAlreadyInUse));
    let mut accounts = init_job_accounts(key(1), 4);
    accounts.vault.is_allocated = true;
    assert_eq!(accounts.try_accounts(&program()).err(), Some(ErrorCode::AccountAlreadyInUse));
    assert!(!accounts.job.is_allocated);
}

#[test]
fn initialize_job_wrong_client_bump() {
    let mut accounts = init_job_accounts(key(1), 4);
    accounts.client.data.bump = accounts.client.data.bump.wrapping_sub(1);
    assert_eq!(accounts.try_accounts(&program()).err(), Some(ErrorCode::ConstraintSeeds));
}

fn run_initialize_job(description: &str) -> (Context<InitializeJob>, TokenCpi) {
    let mut bumps = Bumps::new();
    bumps.insert(JOB_SEED, 77);
    let mut ctx = Context { program_id: program(), accounts: init_job_accounts(key(1), 4), bumps };
    let cpi = initialize_job(&mut ctx, description.to_string(), 1000, false, 99, 1234).expect("authority found");
    (ctx, cpi)
}

#[test]
fn initialize_job_records_job() {
    let (ctx, cpi) = run_initialize_job("write a parser");
    let job = &ctx.accounts.job.data;
    assert_eq!(ctx.accounts.client.data.job_count, 5);
    assert_eq!(job.index, 5);
    assert_eq!(job.bump, 77);
    assert_eq!(job.state, JobState::PENDING);
    assert_eq!(job.job_description, "write a parser");
    assert_eq!(job.price, 1000);
    assert_eq!(job.deadline, 99);
    assert_eq!(job.publish_date, 1234);
    assert!(job.client.key_eq(&key(1)));
    assert!(job.validator.key_eq(&key(1)));
    assert!(job.currency.key_eq(&key(50)));
    assert!(job.vault_token_account.key_eq(&ctx.accounts.vault.key));
    let (authority, _) = pda(&make_authority_seeds());
    match cpi {
        TokenCpi::SetAuthority { ctx: c, authority_type, new_authority } => {
            assert_eq!(authority_type, AuthorityType::AccountOwner);
            assert!(new_authority.expect("new owner").key_eq(&authority));
            assert!(c.accounts.account_or_mint.key_eq(&ctx.accounts.vault.key));
            assert!(c.accounts.current_authority.key_eq(&key(1)));
            assert!(c.program.key_eq(&token_program()));
        }
        TokenCpi::Transfer { .. } => panic!("expected a change of authority"),
    }
    assert!(ctx.accounts.exit().is_ok());
}

#[test]
fn initialize_job_description_limit() {
    let (ctx, _) = run_initialize_job(&"a".repeat(87));
    assert!(ctx.accounts.exit().is_ok());
    let (ctx, _) = run_initialize_job(&"a".repeat(88));
    assert_eq!(ctx.accounts.exit().err(), Some(ErrorCode::AccountDidNotSerialize));
}

fn published_job(owner: Pubkey, index: u64, state: JobState) -> Account<Job> {
    let (job_addr, job_bump) = pda(&make_job_seeds(&owner, index));
    let (_, vault_bump) = pda(&make_vault_seeds(&job_addr));
    let mut job = Job::zeroed();
    job.bump = job_bump;
    job.vault_bump = vault_bump;
    job.index = index;
    job.client = owner;
    job.validator = owner;
    job.state = state;
    job.price = 500;
    job.currency = key(50);
    acc(job_addr, job)
}

fn publish_accounts(state: JobState) -> PublishJob {
    let job = published_job(key(1), 3, state);
    let (vault_addr, _) = pda(&make_vault_seeds(&job.key));
    PublishJob {
        signer: signer(key(1)),
        job,
        vault: acc(vault_addr, token(key(50), key(2))),
        client_token_account: acc(key(3), token(key(50), key(1))),
        currency: key(50),
        token_program: token_program(),
    }
}

#[test]
fn publish_job_accounts() {
    let accounts = publish_accounts(JobState::PENDING);
    assert!(accounts.try_accounts(&program()).is_ok());
    let mut bad = publish_accounts(JobState::PENDING);
    bad.client_token_account.data.mint = key(51);
    assert_eq!(bad.try_accounts(&program()).err(), Some(ErrorCode::ConstraintRaw));
    let mut bad = publish_accounts(JobState::PENDING);
    bad.job.data.index = 4;
    assert_eq!(bad.try_accounts(&program()).err(), Some(ErrorCode::ConstraintSeeds));
}

#[test]
fn publish_job_transfers_price_into_vault() {
    let mut ctx = Context { program_id: program(), accounts: publish_accounts(JobState::CANCELED), bumps: Bumps::new() };
    let cpi = publish_job(&mut ctx);
    assert_eq!(ctx.accounts.job.data.state, JobState::PUBLISHED);
    match cpi {
        TokenCpi::Transfer { ctx: c, amount } => {
            assert_eq!(amount, 500);
            assert!(c.accounts.from.key_eq(&key(3)));
            assert!(c.accounts.to.key_eq(&ctx.accounts.vault.key));
            assert!(c.accounts.authority.key_eq(&ctx.accounts.vault.key));
            assert!(c.signer_seeds.is_empty());
        }
        TokenCpi::SetAuthority { .. } => panic!("expected a transfer"),
    }
}

fn cancel_accounts(state: JobState) -> CancelJob {
    let p = publish_accounts(state);
    CancelJob {
        signer: p.signer,
        job: p.job,
        vault: p.vault,
        client_token_account: p.client_token_account,
        currency: p.currency,
        token_program: p.token_program,
    }
}

#[test]
fn cancel_job_accounts() {
    assert!(cancel_accounts(JobState::PUBLISHED).try_accounts(&program()).is_ok());
    let mut bad = cancel_accounts(JobState::PUBLISHED);
    bad.signer.key = key(9);
    assert_eq!(bad.try_accounts(&program()).err(), Some(ErrorCode::ConstraintRaw));
}

#[test]
fn cancel_job_refunds_client() {
    let mut ctx = Context { program_id: program(), accounts: cancel_accounts(JobState::PUBLISHED), bumps: Bumps::new() };
    assert!(ctx.accounts.job.data.state.is_cancelable());
    let cpi = cancel_job(&mut ctx).expect("authority found");
    assert_eq!(ctx.accounts.job.data.state, JobState::CANCELED);
    assert!(!ctx.accounts.job.data.state.is_cancelable());
    assert!(!ctx.accounts.job.data.state.is_open());
    let (_, bump) = pda(&make_authority_seeds());
    match cpi {
        TokenCpi::Transfer { ctx: c, amount } => {
            assert_eq!(amount, 500);
            assert!(c.accounts.from.key_eq(&ctx.accounts.vault.key));
            assert!(c.accounts.to.key_eq(&key(3)));
            assert_eq!(c.signer_seeds, vec![vec![b"DSYNC_AUTHORITY".to_vec(), vec![bump]]]);
        }
        TokenCpi::SetAuthority { .. } => panic!("expected a transfer"),
    }
}

#[test]
fn which_states_are_cancelable_or_open() {
    assert!(JobState::PENDING.is_cancelable() && JobState::PUBLISHED.is_cancelable());
    assert!(!JobState::ACTIVE.is_cancelable());
    assert!(JobState::ACTIVE.is_open() && JobState::PENDING.is_open() && JobState::PUBLISHED.is_open());
    assert!(!JobState::VALIDATED.is_open() && !JobState::COMPLETED.is_open() && !JobState::CANCELED.is_open());
}

fn start_accounts(worker: Pubkey) -> StartJob {
    let job = published_job(key(1), 3, JobState::PUBLISHED);
    let (sub_addr, _) = pda(&make_submission_seeds(&worker, &job.key));
    StartJob {
        signer: signer(worker),
        job,
        submission: fresh(sub_addr, Submission::zeroed()),
        system_program: Pubkey::system_program_id(),
    }
}

#[test]
fn start_job_accounts_file_bump_under_account_name() {
    let mut accounts = start_accounts(key(8));
    assert_eq!(accounts.try_accounts(&program(), &key(9)).err(), Some(ErrorCode::ConstraintSeeds));
    let bumps = accounts.try_accounts(&program(), &key(8)).expect("checks pass");
    assert!(bumps.get("submission").is_some());
    assert_eq!(bumps.get(SUBMISSION_SEED), None);
    assert!(accounts.submission.is_allocated);
    assert!(!accounts.submission.data.is_winner);
}

#[test]
fn starting_a_worker_twice_is_refused() {
    let mut accounts = start_accounts(key(8));
    assert!(accounts.try_accounts(&program(), &key(8)).is_ok());
    assert_eq!(accounts.try_accounts(&program(), &key(8)).err(), Some(ErrorCode::AccountAlreadyInUse));
}

#[test]
fn start_job_activates_and_records_worker() {
    let mut bumps = Bumps::new();
    bumps.insert(SUBMISSION_SEED, 250);
    let mut ctx = Context { program_id: program(), accounts: start_accounts(key(8)), bumps };
    start_job(&mut ctx, key(8), 4321);
    assert_eq!(ctx.accounts.job.data.state, JobState::ACTIVE);
    let sub = &ctx.accounts.submission.data;
    assert_eq!(sub.bump, 250);
    assert!(sub.job.key_eq(&ctx.accounts.job.key));
    assert!(sub.worker.key_eq(&key(8)));
    assert_eq!(sub.submission_started, 4321);
    assert!(!sub.is_winner);
}

fn existing_submission(worker: Pubkey, job: &Account<Job>) -> Account<Submission> {
    let (addr, bump) = pda(&make_submission_seeds(&worker, &job.key));
    let mut data = Submission::zeroed();
    data.bump = bump;
    data.job = job.key;
    data.worker = worker;
    acc(addr, data)
}

#[test]
fn publish_submission_records_hash_and_date() {
    let job = published_job(key(1), 3, JobState::ACTIVE);
    let accounts = PublishSubmission { signer: signer(key(8)), submission: existing_submission(key(8), &job) };
    assert!(accounts.try_accounts(&program()).is_ok());
    let mut ctx = Context { program_id: program(), accounts, bumps: Bumps::new() };
    publish_submission(&mut ctx, "QmHash".to_string(), 777);
    assert_eq!(ctx.accounts.submission.data.submission_hash, "QmHash");
    assert_eq!(ctx.accounts.submission.data.submission_date, 777);
    assert!(ctx.accounts.exit().is_ok());
    publish_submission(&mut ctx, "h".repeat(33), 778);
    assert_eq!(ctx.accounts.exit().err(), Some(ErrorCode::AccountDidNotSerialize));
}

#[test]
fn validate_submission_names_winner() {
    let job = published_job(key(1), 3, JobState::ACTIVE);
    let submission = existing_submission(key(8), &job);
    let accounts = ValidateSubmission { signer: signer(key(1)), submission, job };
    assert!(accounts.try_accounts(&program()).is_ok());
    let mut ctx = Context { program_id: program(), accounts, bumps: Bumps::new() };
    validate_submission(&mut ctx);
    let job = &ctx.accounts.job.data;
    assert_eq!(job.state, JobState::VALIDATED);
    assert!(job.winner.key_eq(&key(8)));
    assert!(job.winning_submission.key_eq(&ctx.accounts.submission.key));
    assert!(!ctx.accounts.submission.data.is_winner);
}

#[test]
fn validate_submission_needs_validator() {
    let job = published_job(key(1), 3, JobState::ACTIVE);
    let submission = existing_submission(key(8), &job);
    let accounts = ValidateSubmission { signer: signer(key(8)), submission, job };
    assert_eq!(accounts.try_accounts(&program()).err(), Some(ErrorCode::ConstraintRaw));
}

fn claim_accounts(is_winner: bool) -> ClaimReward {
    let job = published_job(key(1), 3, JobState::VALIDATED);
    let mut submission = existing_submission(key(8), &job);
    submission.data.is_winner = is_winner;
    let (vault_addr, _) = pda(&make_vault_seeds(&job.key));
    ClaimReward {
        signer: signer(key(8)),
        job,
        submission,
        vault: acc(vault_addr, token(key(50), key(2))),
        winning_token_account: acc(key(9), token(key(50), key(8))),
        token_program: token_program(),
    }
}

#[test]
fn claim_needs_a_winning_submission() {
    assert_eq!(claim_accounts(false).try_accounts(&program()).err(), Some(ErrorCode::ConstraintRaw));
    assert!(claim_accounts(true).try_accounts(&program()).is_ok());
}

#[test]
fn claim_pays_the_winner() {
    let ctx = Context { program_id: program(), accounts: claim_accounts(true), bumps: Bumps::new() };
    let (_, bump) = pda(&make_authority_seeds());
    match calim_reward(&ctx).expect("authority found") {
        TokenCpi::Transfer { ctx: c, amount } => {
            assert_eq!(amount, 500);
            assert!(c.accounts.from.key_eq(&ctx.accounts.vault.key));
            assert!(c.accounts.to.key_eq(&key(9)));
            assert!(c.accounts.authority.key_eq(&ctx.accounts.vault.key));
            assert_eq!(c.signer_seeds, vec![vec![b"DSYNC_AUTHORITY".to_vec(), vec![bump]]]);
        }
        TokenCpi::SetAuthority { .. } => panic!("expected a transfer"),
    }
}

#[test]
fn newly_initialized_job_fails_later_seed_check() {
    let (ctx, _) = run_initialize_job("task");
    let mut job = acc(ctx.accounts.job.key, ctx.accounts.job.data);
    let (_, found_bump) = pda(&make_job_seeds(&key(1), 4));
    job.data.bump = found_bump;
    let (vault_addr, _) = pda(&make_vault_seeds(&job.key));
    let accounts = PublishJob {
        signer: signer(key(1)),
        job,
        vault: acc(vault_addr, token(key(50), key(2))),
        client_token_account: acc(key(3), token(key(50), key(1))),
        currency: key(50),
        token_program: token_program(),
    };
    assert_eq!(accounts.try_accounts(&program()).err(), Some(ErrorCode::ConstraintSeeds));
}

#[test]
fn seeds_beyond_limits_find_no_bump() {
    let seeds = vec![vec![1u8; 33]];
    assert_eq!(check_found(&seeds, &key(1), &program()).err(), Some(ErrorCode::BumpSeedNotFound));
    assert!(!check_created(&seeds, 255, &key(1), &program()));
    let many: Vec<Vec<u8>> = (0..16).map(|i| vec![i as u8]).collect();
    assert_eq!(check_found(&many, &key(1), &program()).err(), Some(ErrorCode::BumpSeedNotFound));
    let fifteen: Vec<Vec<u8>> = (0..15).map(|i| vec![i as u8; 32]).collect();
    assert!(within_limits(&fifteen) && within_limits(&many));
    assert!(!within_limits(&vec![vec![0u8; 2]; 17]));
    let (addr, bump) = pda(&fifteen);
    assert!(check_created(&fifteen, bump, &addr, &program()));
}

#[test]
fn found_bump_passes_recheck() {
    let owner = key(4);
    let seeds = make_client_seeds(&owner);
    let (addr, bump) = pda(&seeds);
    assert_eq!(check_found(&seeds, &addr, &program()), Ok(bump));
    assert!(check_created(&seeds, bump, &addr, &program()));
    assert_eq!(check_found(&seeds, &key(4), &program()).err(), Some(ErrorCode::ConstraintSeeds));
}

#[test]
fn unsigned_or_readonly_accounts_are_refused() {
    let mut accounts = cancel_accounts(JobState::PUBLISHED);
    accounts.signer.is_signer = false;
    assert_eq!(accounts.try_accounts(&program()).err(), Some(ErrorCode::AccountNotSigner));
    let mut accounts = cancel_accounts(JobState::PUBLISHED);
    accounts.signer.is_writable = false;
    assert_eq!(accounts.try_accounts(&program()).err(), Some(ErrorCode::ConstraintMut));
    let mut accounts = cancel_accounts(JobState::PUBLISHED);
    accounts.vault.is_writable = false;
    assert_eq!(accounts.try_accounts(&program()).err(), Some(ErrorCode::ConstraintMut));
    let mut accounts = claim_accounts(true);
    accounts.winning_token_account.data.owner = key(7);
    assert_eq!(accounts.try_accounts(&program()).err(), Some(ErrorCode::ConstraintRaw));
}

#[test]
fn a_series_of_jobs_is_numbered_one_to_k() {
    let owner = key(1);
    let mut reg = Context { program_id: program(), accounts: init_client_accounts(owner), bumps: Bumps::new() };
    reg.accounts.try_accounts(&program(), &owner).expect("checks pass");
    reg.bumps.insert(CLIENT_SEED, 200);
    initialize_client(&mut reg, owner);
    let mut client = reg.accounts.client;
    let mut seeds = Vec::new();
    for k in 1..=3u64 {
        let mut accounts = init_job_accounts(owner, client.data.job_count);
        accounts.client = client;
        let mut bumps = Bumps::new();
        bumps.insert(JOB_SEED, 1);
        let mut ctx = Context { program_id: program(), accounts, bumps };
        seeds.push(make_job_seeds(&owner, ctx.accounts.client.data.job_count));
        initialize_job(&mut ctx, "t".to_string(), 10, false, 0, 0).expect("authority found");
        assert_eq!(ctx.accounts.job.data.index, k);
        assert_eq!(ctx.accounts.client.data.job_count, k);
        client = ctx.accounts.client;
    }
    assert!(seeds[0] != seeds[1] && seeds[1] != seeds[2] && seeds[0] != seeds[2]);
}

#[test]
fn program_ids_are_checked() {
    let anchor_token = anchor_spl::token::ID;
    assert_eq!(Pubkey::token_program_id().bytes, anchor_token.to_bytes());
    assert_eq!(Pubkey::system_program_id().bytes, anchor_lang::system_program::ID.to_bytes());
    let mut accounts = init_client_accounts(key(1));
    accounts.system_program = key(3);
    assert_eq!(accounts.try_accounts(&program(), &key(1)).err(), Some(ErrorCode::InvalidProgramId));
    assert!(!accounts.client.is_allocated);
    let mut accounts = init_job_accounts(key(1), 0);
    accounts.token_program = key(60);
    assert_eq!(accounts.try_accounts(&program()).err(), Some(ErrorCode::InvalidProgramId));
    let mut accounts = init_job_accounts(key(1), 0);
    accounts.system_program = token_program();
    assert_eq!(accounts.try_accounts(&program()).err(), Some(ErrorCode::InvalidProgramId));
    let mut accounts = publish_accounts(JobState::PENDING);
    accounts.token_program = Pubkey::system_program_id();
    assert_eq!(accounts.try_accounts(&program()).err(), Some(ErrorCode::InvalidProgramId));
    let mut accounts = cancel_accounts(JobState::PUBLISHED);
    accounts.token_program = key(60);
    assert_eq!(accounts.try_accounts(&program()).err(), Some(ErrorCode::InvalidProgramId));
    let mut accounts = start_accounts(key(8));
    accounts.system_program = key(60);
    assert_eq!(accounts.try_accounts(&program(), &key(8)).err(), Some(ErrorCode::InvalidProgramId));
    let mut accounts = claim_accounts(true);
    accounts.token_program = key(60);
    assert_eq!(accounts.try_accounts(&program()).err(), Some(ErrorCode::InvalidProgramId));
    let mut accounts = claim_accounts(true);
    accounts.token_program = key(60);
    accounts.signer.is_signer = false;
    assert_eq!(accounts.try_accounts(&program()).err(), Some(ErrorCode::AccountNotSigner));
}

#[test]
fn readonly_new_accounts_are_refused() {
    let mut accounts = init_client_accounts(key(1));
    accounts.client.is_writable = false;
    assert_eq!(accounts.try_accounts(&program(), &key(1)).err(), Some(ErrorCode::ConstraintMut));
    assert!(!accounts.client.is_allocated);
    let mut accounts = init_job_accounts(key(1), 2);
    accounts.job.is_writable = false;
    assert_eq!(accounts.try_accounts(&program()).err(), Some(ErrorCode::ConstraintMut));
    let mut accounts = init_job_accounts(key(1), 2);
    accounts.vault.is_writable = false;
    assert_eq!(accounts.try_accounts(&program()).err(), Some(ErrorCode::ConstraintMut));
    assert!(!accounts.job.is_allocated);
    let mut accounts = start_accounts(key(8));
    accounts.submission.is_writable = false;
    assert_eq!(accounts.try_accounts(&program(), &key(8)).err(), Some(ErrorCode::ConstraintMut));
    let mut accounts = start_accounts(key(8));
    accounts.submission.is_writable = false;
    accounts.submission.is_allocated = true;
    assert_eq!(accounts.try_accounts(&program(), &key(8)).err(), Some(ErrorCode::AccountAlreadyInUse));
}

#[test]
fn a_series_of_jobs_lies_at_distinct_addresses() {
    let owner = key(1);
    let mut reg = Context { program_id: program(), accounts: init_client_accounts(owner), bumps: Bumps::new() };
    reg.accounts.try_accounts(&program(), &owner).expect("checks pass");
    reg.bumps.insert(CLIENT_SEED, 200);
    initialize_client(&mut reg, owner);
    let (client_addr, client_bump) = pda(&make_client_seeds(&owner));
    let mut client = reg.accounts.client;
    client.key = client_addr;
    client.data.bump = client_bump;
    let mut keys: Vec<Pubkey> = Vec::new();
    for i in 0..3u64 {
        let mut accounts = init_job_accounts(owner, i);
        accounts.client = client;
        accounts.try_accounts(&program()).expect("checks pass");
        let (expected, _) = pda(&make_job_seeds(&owner, i));
        assert!(accounts.job.key.key_eq(&expected));
        let mut bumps = Bumps::new();
        bumps.insert(JOB_SEED, 1);
        let mut ctx = Context { program_id: program(), accounts, bumps };
        initialize_job(&mut ctx, "t".to_string(), 10, false, 0, 0).expect("authority found");
        keys.push(ctx.accounts.job.key);
        client = ctx.accounts.client;
    }
    assert!(!keys[0].key_eq(&keys[1]) && !keys[1].key_eq(&keys[2]) && !keys[0].key_eq(&keys[2]));
}
