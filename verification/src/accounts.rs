use vstd::prelude::*;

use crate::bumps::Bumps;
use crate::cpi::{CpiContext, SetAuthority, Transfer};
use crate::error::ErrorCode;
use crate::pda::{
    canonical_address, client_seeds, create_with_bump, created_address, find_canonical, job_seeds, make_client_seeds,
    make_job_seeds, make_submission_seeds, make_vault_seeds, submission_seeds, vault_seeds, with_bump,
};
use crate::pubkey::Pubkey;
use crate::state::{Account, Client, Job, JobState, Signer, Submission, TokenAccount};

verus! {

/// What an instruction's handler is given: the program's id, the checked
/// accounts and the bumps found while checking them.
pub struct Context<T> {
    pub program_id: Pubkey,
    pub accounts: T,
    pub bumps: Bumps,
}

/// What checking a newly created account's seeds gives: the canonical bump
/// where the canonical address is the account's, else why the check fails.
pub open spec fn found_bump(seeds: Seq<Seq<u8>>, key: Seq<u8>, program_id: Seq<u8>) -> Result<u8, ErrorCode> {
    match canonical_address(seeds, program_id) {
        None => Err(ErrorCode::BumpSeedNotFound),
        Some((a, b)) => if a == key {
            Ok(b)
        } else {
            Err(ErrorCode::ConstraintSeeds)
        },
    }
}

/// The seeds with the stored bump create the account's address.
pub open spec fn seeds_match(seeds: Seq<Seq<u8>>, bump: u8, key: Seq<u8>, program_id: Seq<u8>) -> bool {
    created_address(with_bump(seeds, bump), program_id) == Some(key)
}

/// `after` is `before` newly created by the instruction: the same address
/// and writability, now allocated.
pub open spec fn created<T>(before: &Account<T>, after: &Account<T>) -> bool {
    &&& after.key == before.key
    &&& after.is_writable == before.is_writable
    &&& after.is_allocated
}

/// An account check's outcome, with the bumps taken by their view.
pub open spec fn checked(r: Result<Bumps, ErrorCode>) -> Result<Map<Seq<char>, u8>, ErrorCode> {
    match r {
        Ok(b) => Ok(b@),
        Err(e) => Err(e),
    }
}

/// Checks the seeds of an account created by the instruction.
pub fn check_found(seeds: &Vec<Vec<u8>>, key: &Pubkey, program_id: &Pubkey) -> (r: Result<u8, ErrorCode>)
    ensures
        r == found_bump(seeds.deep_view(), key@, program_id@),
{
    match find_canonical(seeds, program_id) {
        None => Err(ErrorCode::BumpSeedNotFound),
        Some((a, b)) => if a.key_eq(key) {
            Ok(b)
        } else {
            Err(ErrorCode::ConstraintSeeds)
        },
    }
}

/// Checks the seeds, with a stored bump, of an existing account.
pub fn check_created(seeds: &Vec<Vec<u8>>, bump: u8, key: &Pubkey, program_id: &Pubkey) -> (r: bool)
    ensures
        r == seeds_match(seeds.deep_view(), bump, key@, program_id@),
{
    match create_with_bump(seeds, bump, program_id) {
        None => false,
        Some(a) => a.key_eq(key),
    }
}

/// The accounts of `initialize_client`.
pub struct InitializeClient {
    pub signer: Signer,
    pub client: Account<Client>,
    pub system_program: Pubkey,
}

impl InitializeClient {
    /// The outcome of the account checks: the signer signed; the system
    /// program is the system program; the new client account lies at the
    /// canonical address of the client's seeds, is not yet allocated and is
    /// writable; the signer is writable.
    pub open spec fn spec_try_accounts(&self, program_id: Seq<u8>, client: Seq<u8>) -> Result<Map<Seq<char>, u8>, ErrorCode> {
        if !self.signer.is_signer {
            Err(ErrorCode::AccountNotSigner)
        } else if self.system_program@ != Pubkey::spec_system_program_id() {
            Err(ErrorCode::InvalidProgramId)
        } else {
            match found_bump(client_seeds(client), self.client.key@, program_id) {
                Err(e) => Err(e),
                Ok(b) => if self.client.is_allocated {
                    Err(ErrorCode::AccountAlreadyInUse)
                } else if !self.client.is_writable {
                    Err(ErrorCode::ConstraintMut)
                } else if !self.signer.is_writable {
                    Err(ErrorCode::ConstraintMut)
                } else {
                    Ok(Map::empty().insert("client"@, b))
                },
            }
        }
    }

    /// Stores the client account after the handler: fails where the data does
    /// not fit the allocated space.
    pub fn exit(&self) -> (r: Result<(), ErrorCode>)
        ensures
            r is Ok <==> self.client.data.stored_len() <= Client::SPACE,
            r is Err ==> r == Err::<(), ErrorCode>(ErrorCode::AccountDidNotSerialize),
    {
        if !self.client.data.fits_space() {
            return Err(ErrorCode::AccountDidNotSerialize);
        }
        Ok(())
    }

    /// Checks the accounts of `initialize_client` for the given client key
    /// and creates the client account, zeroed, filing its bump under its
    /// name. Changes nothing where a check fails.
    pub fn try_accounts(&mut self, program_id: &Pubkey, client: &Pubkey) -> (r: Result<Bumps, ErrorCode>)
        ensures
            checked(r) == old(self).spec_try_accounts(program_id@, client@),
            r is Err ==> *final(self) == *old(self),
            r is Ok ==> {
                &&& created(&old(self).client, &final(self).client)
                &&& final(self).client.data.spec_is_zeroed()
                &&& final(self).signer == old(self).signer
                &&& final(self).system_program == old(self).system_program
            },
    {
        if !self.signer.is_signer {
            return Err(ErrorCode::AccountNotSigner);
        }
        if !self.system_program.key_eq(&Pubkey::system_program_id()) {
            return Err(ErrorCode::InvalidProgramId);
        }
        let seeds = make_client_seeds(client);
        let b = check_found(&seeds, &self.client.key, program_id)?;
        if self.client.is_allocated {
            return Err(ErrorCode::AccountAlreadyInUse);
        }
        if !self.client.is_writable {
            return Err(ErrorCode::ConstraintMut);
        }
        if !self.signer.is_writable {
            return Err(ErrorCode::ConstraintMut);
        }
        self.client.is_allocated = true;
        self.client.data = Client::zeroed();
        let mut bumps = Bumps::new();
        bumps.insert("client", b);
        Ok(bumps)
    }
}

/// The accounts of `initialize_job`.
pub struct InitializeJob {
    pub signer: Signer,
    pub client: Account<Client>,
    pub job: Account<Job>,
    pub vault: Account<TokenAccount>,
    pub currency: Pubkey,
    pub system_program: Pubkey,
    pub token_program: Pubkey,
}

impl InitializeJob {
    /// The outcome of the account checks: the signer signed; the system and
    /// token programs are those programs; the new job lies at the canonical
    /// address of its seeds, is not yet allocated and is writable; so does the
    /// new vault; the signer is writable; the client lies at the address of
    /// its seeds and stored bump and is writable. The vault's token is then
    /// the currency, as the vault is created with it.
    pub open spec fn spec_try_accounts(&self, program_id: Seq<u8>) -> Result<Map<Seq<char>, u8>, ErrorCode> {
        if !self.signer.is_signer {
            Err(ErrorCode::AccountNotSigner)
        } else if self.system_program@ != Pubkey::spec_system_program_id() {
            Err(ErrorCode::InvalidProgramId)
        } else if self.token_program@ != Pubkey::spec_token_program_id() {
            Err(ErrorCode::InvalidProgramId)
        } else {
            match found_bump(job_seeds(self.client.data.owner@, self.client.data.job_count), self.job.key@, program_id) {
                Err(e) => Err(e),
                Ok(job_bump) => if self.job.is_allocated {
                    Err(ErrorCode::AccountAlreadyInUse)
                } else if !self.job.is_writable {
                    Err(ErrorCode::ConstraintMut)
                } else {
                    match found_bump(vault_seeds(self.job.key@), self.vault.key@, program_id) {
                        Err(e) => Err(e),
                        Ok(vault_bump) => if self.vault.is_allocated {
                            Err(ErrorCode::AccountAlreadyInUse)
                        } else if !self.vault.is_writable {
                            Err(ErrorCode::ConstraintMut)
                        } else if !self.signer.is_writable {
                            Err(ErrorCode::ConstraintMut)
                        } else if !seeds_match(client_seeds(self.client.data.owner@), self.client.data.bump, self.client.key@, program_id) {
                            Err(ErrorCode::ConstraintSeeds)
                        } else if !self.client.is_writable {
                            Err(ErrorCode::ConstraintMut)
                        } else {
                            Ok(Map::empty().insert("job"@, job_bump).insert("vault"@, vault_bump))
                        },
                    }
                },
            }
        }
    }

    /// Stores the client and the job after the handler: fails where either's
    /// data does not fit its allocated space.
    pub fn exit(&self) -> (r: Result<(), ErrorCode>)
        ensures
            r is Ok <==> (self.client.data.stored_len() <= Client::SPACE && self.job.data.stored_len() <= Job::SPACE),
            r is Err ==> r == Err::<(), ErrorCode>(ErrorCode::AccountDidNotSerialize),
    {
        if !self.client.data.fits_space() || !self.job.data.fits_space() {
            return Err(ErrorCode::AccountDidNotSerialize);
        }
        Ok(())
    }

    /// Checks the accounts of `initialize_job` and creates the job, zeroed,
    /// and the vault, holding the currency and owned by the signer, filing
    /// their bumps under their names. Changes nothing where a check fails.
    pub fn try_accounts(&mut self, program_id: &Pubkey) -> (r: Result<Bumps, ErrorCode>)
        ensures
            checked(r) == old(self).spec_try_accounts(program_id@),
            r is Err ==> *final(self) == *old(self),
            r is Ok ==> {
                &&& created(&old(self).job, &final(self).job)
                &&& final(self).job.data.spec_is_zeroed()
                &&& created(&old(self).vault, &final(self).vault)
                &&& final(self).vault.data == (TokenAccount { mint: old(self).currency, owner: old(self).signer.key })
                &&& final(self).signer == old(self).signer
                &&& final(self).client == old(self).client
                &&& final(self).currency == old(self).currency
                &&& final(self).system_program == old(self).system_program
                &&& final(self).token_program == old(self).token_program
            },
    {
        if !self.signer.is_signer {
            return Err(ErrorCode::AccountNotSigner);
        }
        if !self.system_program.key_eq(&Pubkey::system_program_id()) {
            return Err(ErrorCode::InvalidProgramId);
        }
        if !self.token_program.key_eq(&Pubkey::token_program_id()) {
            return Err(ErrorCode::InvalidProgramId);
        }
        let job_seeds = make_job_seeds(&self.client.data.owner, self.client.data.job_count);
        let job_bump = check_found(&job_seeds, &self.job.key, program_id)?;
        if self.job.is_allocated {
            return Err(ErrorCode::AccountAlreadyInUse);
        }
        if !self.job.is_writable {
            return Err(ErrorCode::ConstraintMut);
        }
        let vault_seeds = make_vault_seeds(&self.job.key);
        let vault_bump = check_found(&vault_seeds, &self.vault.key, program_id)?;
        if self.vault.is_allocated {
            return Err(ErrorCode::AccountAlreadyInUse);
        }
        if !self.vault.is_writable {
            return Err(ErrorCode::ConstraintMut);
        }
        if !self.signer.is_writable {
            return Err(ErrorCode::ConstraintMut);
        }
        let client_seeds = make_client_seeds(&self.client.data.owner);
        if !check_created(&client_seeds, self.client.data.bump, &self.client.key, program_id) {
            return Err(ErrorCode::ConstraintSeeds);
        }
        if !self.client.is_writable {
            return Err(ErrorCode::ConstraintMut);
        }
        self.job.is_allocated = true;
        self.job.data = Job::zeroed();
        self.vault.is_allocated = true;
        self.vault.data = TokenAccount { mint: self.currency, owner: self.signer.key };
        let mut bumps = Bumps::new();
        bumps.insert("job", job_bump);
        bumps.insert("vault", vault_bump);
        Ok(bumps)
    }

    /// The call that hands the vault to a new owner, signed by the signer.
    pub fn set_authority(&self) -> (c: CpiContext<SetAuthority>)
        ensures
            c.program == self.token_program,
            c.accounts.account_or_mint == self.vault.key,
            c.accounts.current_authority == self.signer.key,
            c.signer_seeds@.len() == 0,
    {
        let cpi_accounts = SetAuthority { account_or_mint: self.vault.key, current_authority: self.signer.key };
        CpiContext::new(self.token_program, cpi_accounts)
    }
}

/// A job account lies at the address of its stored seeds and bump.
pub open spec fn job_seeds_match(job: &Account<Job>, program_id: Seq<u8>) -> bool {
    seeds_match(job_seeds(job.data.client@, job.data.index), job.data.bump, job.key@, program_id)
}

/// A submission account lies at the address of its stored seeds and bump.
pub open spec fn submission_seeds_match(submission: &Account<Submission>, program_id: Seq<u8>) -> bool {
    seeds_match(submission_seeds(submission.data.worker@, submission.data.job@), submission.data.bump, submission.key@, program_id)
}

/// Checks a job account's address against its stored seeds.
pub fn check_job_seeds(job: &Account<Job>, program_id: &Pubkey) -> (r: bool)
    ensures
        r == job_seeds_match(job, program_id@),
{
    let seeds = make_job_seeds(&job.data.client, job.data.index);
    check_created(&seeds, job.data.bump, &job.key, program_id)
}

/// Checks a submission account's address against its stored seeds.
pub fn check_submission_seeds(submission: &Account<Submission>, program_id: &Pubkey) -> (r: bool)
    ensures
        r == submission_seeds_match(submission, program_id@),
{
    let seeds = make_submission_seeds(&submission.data.worker, &submission.data.job);
    check_created(&seeds, submission.data.bump, &submission.key, program_id)
}

/// The checks on a job's accounts that publishing and canceling share, after
/// the signer's: the job's seeds and writability, the vault's seeds,
/// writability and currency, the client token account's writability and token.
pub open spec fn spec_check_job_funding(
    job: &Account<Job>,
    vault: &Account<TokenAccount>,
    client_token_account: &Account<TokenAccount>,
    currency: Pubkey,
    program_id: Seq<u8>,
) -> Result<Map<Seq<char>, u8>, ErrorCode> {
    if !job_seeds_match(job, program_id) {
        Err(ErrorCode::ConstraintSeeds)
    } else if !job.is_writable {
        Err(ErrorCode::ConstraintMut)
    } else if !seeds_match(vault_seeds(job.key@), job.data.vault_bump, vault.key@, program_id) {
        Err(ErrorCode::ConstraintSeeds)
    } else if !vault.is_writable {
        Err(ErrorCode::ConstraintMut)
    } else if vault.data.mint@ != currency@ {
        Err(ErrorCode::ConstraintRaw)
    } else if !client_token_account.is_writable {
        Err(ErrorCode::ConstraintMut)
    } else if client_token_account.data.mint@ != vault.data.mint@ {
        Err(ErrorCode::ConstraintRaw)
    } else {
        Ok(Map::empty())
    }
}

/// Runs the checks of [`spec_check_job_funding`].
pub fn check_job_funding(
    job: &Account<Job>,
    vault: &Account<TokenAccount>,
    client_token_account: &Account<TokenAccount>,
    currency: &Pubkey,
    program_id: &Pubkey,
) -> (r: Result<Bumps, ErrorCode>)
    ensures
        checked(r) == spec_check_job_funding(job, vault, client_token_account, *currency, program_id@),
{
    if !check_job_seeds(job, program_id) {
        return Err(ErrorCode::ConstraintSeeds);
    }
    if !job.is_writable {
        return Err(ErrorCode::ConstraintMut);
    }
    let vault_seeds = make_vault_seeds(&job.key);
    if !check_created(&vault_seeds, job.data.vault_bump, &vault.key, program_id) {
        return Err(ErrorCode::ConstraintSeeds);
    }
    if !vault.is_writable {
        return Err(ErrorCode::ConstraintMut);
    }
    if !vault.data.mint.key_eq(currency) {
        return Err(ErrorCode::ConstraintRaw);
    }
    if !client_token_account.is_writable {
        return Err(ErrorCode::ConstraintMut);
    }
    if !client_token_account.data.mint.key_eq(&vault.data.mint) {
        return Err(ErrorCode::ConstraintRaw);
    }
    Ok(Bumps::new())
}

/// The accounts of `publish_job`.
pub struct PublishJob {
    pub signer: Signer,
    pub job: Account<Job>,
    pub vault: Account<TokenAccount>,
    pub client_token_account: Account<TokenAccount>,
    pub currency: Pubkey,
    pub token_program: Pubkey,
}

impl PublishJob {
    /// The outcome of the account checks: the signer signed; the token
    /// program is the token program; the signer is writable; then the checks
    /// of [`spec_check_job_funding`].
    pub open spec fn spec_try_accounts(&self, program_id: Seq<u8>) -> Result<Map<Seq<char>, u8>, ErrorCode> {
        if !self.signer.is_signer {
            Err(ErrorCode::AccountNotSigner)
        } else if self.token_program@ != Pubkey::spec_token_program_id() {
            Err(ErrorCode::InvalidProgramId)
        } else if !self.signer.is_writable {
            Err(ErrorCode::ConstraintMut)
        } else {
            spec_check_job_funding(&self.job, &self.vault, &self.client_token_account, self.currency, program_id)
        }
    }

    /// Stores the job after the handler: fails where its data does not fit
    /// the allocated space.
    pub fn exit(&self) -> (r: Result<(), ErrorCode>)
        ensures
            r is Ok <==> self.job.data.stored_len() <= Job::SPACE,
            r is Err ==> r == Err::<(), ErrorCode>(ErrorCode::AccountDidNotSerialize),
    {
        if !self.job.data.fits_space() {
            return Err(ErrorCode::AccountDidNotSerialize);
        }
        Ok(())
    }

    /// Checks the accounts of `publish_job`.
    pub fn try_accounts(&self, program_id: &Pubkey) -> (r: Result<Bumps, ErrorCode>)
        ensures
            checked(r) == self.spec_try_accounts(program_id@),
    {
        if !self.signer.is_signer {
            return Err(ErrorCode::AccountNotSigner);
        }
        if !self.token_program.key_eq(&Pubkey::token_program_id()) {
            return Err(ErrorCode::InvalidProgramId);
        }
        if !self.signer.is_writable {
            return Err(ErrorCode::ConstraintMut);
        }
        check_job_funding(&self.job, &self.vault, &self.client_token_account, &self.currency, program_id)
    }

    /// The transfer from the client's token account into the vault, with the
    /// vault as authority.
    pub fn into_transfer_to_pda_context(&self) -> (c: CpiContext<Transfer>)
        ensures
            c.program == self.token_program,
            c.accounts.from == self.client_token_account.key,
            c.accounts.to == self.vault.key,
            c.accounts.authority == self.vault.key,
            c.signer_seeds@.len() == 0,
    {
        let cpi_accounts = Transfer {
            from: self.client_token_account.key,
            to: self.vault.key,
            authority: self.vault.key,
        };
        CpiContext::new(self.token_program, cpi_accounts)
    }
}

/// The accounts of `cancel_job`.
pub struct CancelJob {
    pub signer: Signer,
    pub job: Account<Job>,
    pub vault: Account<TokenAccount>,
    pub client_token_account: Account<TokenAccount>,
    pub currency: Pubkey,
    pub token_program: Pubkey,
}

impl CancelJob {
    /// The outcome of the account checks: the signer signed; the token
    /// program is the token program; the signer is writable and is the job's
    /// client; then the checks of [`spec_check_job_funding`].
    pub open spec fn spec_try_accounts(&self, program_id: Seq<u8>) -> Result<Map<Seq<char>, u8>, ErrorCode> {
        if !self.signer.is_signer {
            Err(ErrorCode::AccountNotSigner)
        } else if self.token_program@ != Pubkey::spec_token_program_id() {
            Err(ErrorCode::InvalidProgramId)
        } else if !self.signer.is_writable {
            Err(ErrorCode::ConstraintMut)
        } else if self.job.data.client@ != self.signer.key@ {
            Err(ErrorCode::ConstraintRaw)
        } else {
            spec_check_job_funding(&self.job, &self.vault, &self.client_token_account, self.currency, program_id)
        }
    }

    /// Stores the job after the handler: fails where its data does not fit
    /// the allocated space.
    pub fn exit(&self) -> (r: Result<(), ErrorCode>)
        ensures
            r is Ok <==> self.job.data.stored_len() <= Job::SPACE,
            r is Err ==> r == Err::<(), ErrorCode>(ErrorCode::AccountDidNotSerialize),
    {
        if !self.job.data.fits_space() {
            return Err(ErrorCode::AccountDidNotSerialize);
        }
        Ok(())
    }

    /// Checks the accounts of `cancel_job`.
    pub fn try_accounts(&self, program_id: &Pubkey) -> (r: Result<Bumps, ErrorCode>)
        ensures
            checked(r) == self.spec_try_accounts(program_id@),
    {
        if !self.signer.is_signer {
            return Err(ErrorCode::AccountNotSigner);
        }
        if !self.token_program.key_eq(&Pubkey::token_program_id()) {
            return Err(ErrorCode::InvalidProgramId);
        }
        if !self.signer.is_writable {
            return Err(ErrorCode::ConstraintMut);
        }
        if !self.job.data.client.key_eq(&self.signer.key) {
            return Err(ErrorCode::ConstraintRaw);
        }
        check_job_funding(&self.job, &self.vault, &self.client_token_account, &self.currency, program_id)
    }

    /// The transfer from the vault back to the client's token account, with
    /// the vault as authority.
    pub fn into_transfer_to_client_context(&self) -> (c: CpiContext<Transfer>)
        ensures
            c.program == self.token_program,
            c.accounts.from == self.vault.key,
            c.accounts.to == self.client_token_account.key,
            c.accounts.authority == self.vault.key,
            c.signer_seeds@.len() == 0,
    {
        let cpi_accounts = Transfer {
            from: self.vault.key,
            to: self.client_token_account.key,
            authority: self.vault.key,
        };
        CpiContext::new(self.token_program, cpi_accounts)
    }
}

/// The accounts of `start_job`.
pub struct StartJob {
    pub signer: Signer,
    pub job: Account<Job>,
    pub submission: Account<Submission>,
    pub system_program: Pubkey,
}

impl StartJob {
    /// The outcome of the account checks: the signer signed; the system
    /// program is the system program; the new submission lies at the
    /// canonical address of its seeds, is not yet allocated and is writable;
    /// the signer is writable; the job lies at the address of its stored seeds
    /// and is writable.
    pub open spec fn spec_try_accounts(&self, program_id: Seq<u8>, worker: Seq<u8>) -> Result<Map<Seq<char>, u8>, ErrorCode> {
        if !self.signer.is_signer {
            Err(ErrorCode::AccountNotSigner)
        } else if self.system_program@ != Pubkey::spec_system_program_id() {
            Err(ErrorCode::InvalidProgramId)
        } else {
            match found_bump(submission_seeds(worker, self.job.key@), self.submission.key@, program_id) {
                Err(e) => Err(e),
                Ok(b) => if self.submission.is_allocated {
                    Err(ErrorCode::AccountAlreadyInUse)
                } else if !self.submission.is_writable {
                    Err(ErrorCode::ConstraintMut)
                } else if !self.signer.is_writable {
                    Err(ErrorCode::ConstraintMut)
                } else if !job_seeds_match(&self.job, program_id) {
                    Err(ErrorCode::ConstraintSeeds)
                } else if !self.job.is_writable {
                    Err(ErrorCode::ConstraintMut)
                } else {
                    Ok(Map::empty().insert("submission"@, b))
                },
            }
        }
    }

    /// Stores the job and the submission after the handler: fails where
    /// either's data does not fit its allocated space.
    pub fn exit(&self) -> (r: Result<(), ErrorCode>)
        ensures
            r is Ok <==> (self.job.data.stored_len() <= Job::SPACE && self.submission.data.stored_len() <= Submission::SPACE),
            r is Err ==> r == Err::<(), ErrorCode>(ErrorCode::AccountDidNotSerialize),
    {
        if !self.job.data.fits_space() || !self.submission.data.fits_space() {
            return Err(ErrorCode::AccountDidNotSerialize);
        }
        Ok(())
    }

    /// Checks the accounts of `start_job` for the given worker and creates
    /// the submission, zeroed, filing its bump under its name. Changes nothing
    /// where a check fails.
    pub fn try_accounts(&mut self, program_id: &Pubkey, worker: &Pubkey) -> (r: Result<Bumps, ErrorCode>)
        ensures
            checked(r) == old(self).spec_try_accounts(program_id@, worker@),
            r is Err ==> *final(self) == *old(self),
            r is Ok ==> {
                &&& created(&old(self).submission, &final(self).submission)
                &&& final(self).submission.data.spec_is_zeroed()
                &&& final(self).signer == old(self).signer
                &&& final(self).job == old(self).job
                &&& final(self).system_program == old(self).system_program
            },
    {
        if !self.signer.is_signer {
            return Err(ErrorCode::AccountNotSigner);
        }
        if !self.system_program.key_eq(&Pubkey::system_program_id()) {
            return Err(ErrorCode::InvalidProgramId);
        }
        let seeds = make_submission_seeds(worker, &self.job.key);
        let b = check_found(&seeds, &self.submission.key, program_id)?;
        if self.submission.is_allocated {
            return Err(ErrorCode::AccountAlreadyInUse);
        }
        if !self.submission.is_writable {
            return Err(ErrorCode::ConstraintMut);
        }
        if !self.signer.is_writable {
            return Err(ErrorCode::ConstraintMut);
        }
        if !check_job_seeds(&self.job, program_id) {
            return Err(ErrorCode::ConstraintSeeds);
        }
        if !self.job.is_writable {
            return Err(ErrorCode::ConstraintMut);
        }
        self.submission.is_allocated = true;
        self.submission.data = Submission::zeroed();
        let mut bumps = Bumps::new();
        bumps.insert("submission", b);
        Ok(bumps)
    }
}

/// The accounts of `publish_submission`.
pub struct PublishSubmission {
    pub signer: Signer,
    pub submission: Account<Submission>,
}

impl PublishSubmission {
    /// The outcome of the account checks: the signer signed and is writable;
    /// the submission lies at the address of its stored seeds and is writable.
    pub open spec fn spec_try_accounts(&self, program_id: Seq<u8>) -> Result<Map<Seq<char>, u8>, ErrorCode> {
        if !self.signer.is_signer {
            Err(ErrorCode::AccountNotSigner)
        } else if !self.signer.is_writable {
            Err(ErrorCode::ConstraintMut)
        } else if !submission_seeds_match(&self.submission, program_id) {
            Err(ErrorCode::ConstraintSeeds)
        } else if !self.submission.is_writable {
            Err(ErrorCode::ConstraintMut)
        } else {
            Ok(Map::empty())
        }
    }

    /// Stores the submission after the handler: fails where its data does not
    /// fit the allocated space.
    pub fn exit(&self) -> (r: Result<(), ErrorCode>)
        ensures
            r is Ok <==> self.submission.data.stored_len() <= Submission::SPACE,
            r is Err ==> r == Err::<(), ErrorCode>(ErrorCode::AccountDidNotSerialize),
    {
        if !self.submission.data.fits_space() {
            return Err(ErrorCode::AccountDidNotSerialize);
        }
        Ok(())
    }

    /// Checks the accounts of `publish_submission`.
    pub fn try_accounts(&self, program_id: &Pubkey) -> (r: Result<Bumps, ErrorCode>)
        ensures
            checked(r) == self.spec_try_accounts(program_id@),
    {
        if !self.signer.is_signer {
            return Err(ErrorCode::AccountNotSigner);
        }
        if !self.signer.is_writable {
            return Err(ErrorCode::ConstraintMut);
        }
        if !check_submission_seeds(&self.submission, program_id) {
            return Err(ErrorCode::ConstraintSeeds);
        }
        if !self.submission.is_writable {
            return Err(ErrorCode::ConstraintMut);
        }
        Ok(Bumps::new())
    }
}

/// The accounts of `validate_submission`.
pub struct ValidateSubmission {
    pub signer: Signer,
    pub submission: Account<Submission>,
    pub job: Account<Job>,
}

impl ValidateSubmission {
    /// The outcome of the account checks: the signer signed, is writable and
    /// is the job's validator; the submission and the job lie at the
    /// addresses of their stored seeds and are writable.
    pub open spec fn spec_try_accounts(&self, program_id: Seq<u8>) -> Result<Map<Seq<char>, u8>, ErrorCode> {
        if !self.signer.is_signer {
            Err(ErrorCode::AccountNotSigner)
        } else if !self.signer.is_writable {
            Err(ErrorCode::ConstraintMut)
        } else if self.job.data.validator@ != self.signer.key@ {
            Err(ErrorCode::ConstraintRaw)
        } else if !submission_seeds_match(&self.submission, program_id) {
            Err(ErrorCode::ConstraintSeeds)
        } else if !self.submission.is_writable {
            Err(ErrorCode::ConstraintMut)
        } else if !job_seeds_match(&self.job, program_id) {
            Err(ErrorCode::ConstraintSeeds)
        } else if !self.job.is_writable {
            Err(ErrorCode::ConstraintMut)
        } else {
            Ok(Map::empty())
        }
    }

    /// Stores the submission and the job after the handler: fails where
    /// either's data does not fit its allocated space.
    pub fn exit(&self) -> (r: Result<(), ErrorCode>)
        ensures
            r is Ok <==> (self.job.data.stored_len() <= Job::SPACE && self.submission.data.stored_len() <= Submission::SPACE),
            r is Err ==> r == Err::<(), ErrorCode>(ErrorCode::AccountDidNotSerialize),
    {
        if !self.job.data.fits_space() || !self.submission.data.fits_space() {
            return Err(ErrorCode::AccountDidNotSerialize);
        }
        Ok(())
    }

    /// Checks the accounts of `validate_submission`.
    pub fn try_accounts(&self, program_id: &Pubkey) -> (r: Result<Bumps, ErrorCode>)
        ensures
            checked(r) == self.spec_try_accounts(program_id@),
    {
        if !self.signer.is_signer {
            return Err(ErrorCode::AccountNotSigner);
        }
        if !self.signer.is_writable {
            return Err(ErrorCode::ConstraintMut);
        }
        if !self.job.data.validator.key_eq(&self.signer.key) {
            return Err(ErrorCode::ConstraintRaw);
        }
        if !check_submission_seeds(&self.submission, program_id) {
            return Err(ErrorCode::ConstraintSeeds);
        }
        if !self.submission.is_writable {
            return Err(ErrorCode::ConstraintMut);
        }
        if !check_job_seeds(&self.job, program_id) {
            return Err(ErrorCode::ConstraintSeeds);
        }
        if !self.job.is_writable {
            return Err(ErrorCode::ConstraintMut);
        }
        Ok(Bumps::new())
    }
}

/// The accounts of `calim_reward`.
pub struct ClaimReward {
    pub signer: Signer,
    pub job: Account<Job>,
    pub submission: Account<Submission>,
    pub vault: Account<TokenAccount>,
    pub winning_token_account: Account<TokenAccount>,
    pub token_program: Pubkey,
}

impl ClaimReward {
    /// The outcome of the account checks: the signer signed; the token
    /// program is the token program; the signer is writable and is the
    /// submission's worker; the job lies at the address of its seeds,
    /// is writable and validated; the submission lies at the address of its
    /// seeds, is writable, belongs to the job and is marked winner; the vault
    /// lies at the address of its seeds, is writable and holds the job's
    /// currency; the winner's token account is writable, holds that token and
    /// belongs to the signer.
    pub open spec fn spec_try_accounts(&self, program_id: Seq<u8>) -> Result<Map<Seq<char>, u8>, ErrorCode> {
        if !self.signer.is_signer {
            Err(ErrorCode::AccountNotSigner)
        } else if self.token_program@ != Pubkey::spec_token_program_id() {
            Err(ErrorCode::InvalidProgramId)
        } else if !self.signer.is_writable {
            Err(ErrorCode::ConstraintMut)
        } else if self.submission.data.worker@ != self.signer.key@ {
            Err(ErrorCode::ConstraintRaw)
        } else if !job_seeds_match(&self.job, program_id) {
            Err(ErrorCode::ConstraintSeeds)
        } else if !self.job.is_writable {
            Err(ErrorCode::ConstraintMut)
        } else if self.job.data.state != JobState::VALIDATED {
            Err(ErrorCode::ConstraintRaw)
        } else if !submission_seeds_match(&self.submission, program_id) {
            Err(ErrorCode::ConstraintSeeds)
        } else if !self.submission.is_writable {
            Err(ErrorCode::ConstraintMut)
        } else if self.submission.data.job@ != self.job.key@ {
            Err(ErrorCode::ConstraintRaw)
        } else if !self.submission.data.is_winner {
            Err(ErrorCode::ConstraintRaw)
        } else if !seeds_match(vault_seeds(self.submission.data.job@), self.job.data.vault_bump, self.vault.key@, program_id) {
            Err(ErrorCode::ConstraintSeeds)
        } else if !self.vault.is_writable {
            Err(ErrorCode::ConstraintMut)
        } else if self.vault.data.mint@ != self.job.data.currency@ {
            Err(ErrorCode::ConstraintRaw)
        } else if !self.winning_token_account.is_writable {
            Err(ErrorCode::ConstraintMut)
        } else if self.winning_token_account.data.mint@ != self.vault.data.mint@ {
            Err(ErrorCode::ConstraintRaw)
        } else if self.winning_token_account.data.owner@ != self.signer.key@ {
            Err(ErrorCode::ConstraintRaw)
        } else {
            Ok(Map::empty())
        }
    }

    /// Stores the job and the submission after the handler: fails where
    /// either's data does not fit its allocated space.
    pub fn exit(&self) -> (r: Result<(), ErrorCode>)
        ensures
            r is Ok <==> (self.job.data.stored_len() <= Job::SPACE && self.submission.data.stored_len() <= Submission::SPACE),
            r is Err ==> r == Err::<(), ErrorCode>(ErrorCode::AccountDidNotSerialize),
    {
        if !self.job.data.fits_space() || !self.submission.data.fits_space() {
            return Err(ErrorCode::AccountDidNotSerialize);
        }
        Ok(())
    }

    /// Checks the accounts of `calim_reward`.
    pub fn try_accounts(&self, program_id: &Pubkey) -> (r: Result<Bumps, ErrorCode>)
        ensures
            checked(r) == self.spec_try_accounts(program_id@),
    {
        if !self.signer.is_signer {
            return Err(ErrorCode::AccountNotSigner);
        }
        if !self.token_program.key_eq(&Pubkey::token_program_id()) {
            return Err(ErrorCode::InvalidProgramId);
        }
        if !self.signer.is_writable {
            return Err(ErrorCode::ConstraintMut);
        }
        if !self.submission.data.worker.key_eq(&self.signer.key) {
            return Err(ErrorCode::ConstraintRaw);
        }
        if !check_job_seeds(&self.job, program_id) {
            return Err(ErrorCode::ConstraintSeeds);
        }
        if !self.job.is_writable {
            return Err(ErrorCode::ConstraintMut);
        }
        if self.job.data.state != JobState::VALIDATED {
            return Err(ErrorCode::ConstraintRaw);
        }
        if !check_submission_seeds(&self.submission, program_id) {
            return Err(ErrorCode::ConstraintSeeds);
        }
        if !self.submission.is_writable {
            return Err(ErrorCode::ConstraintMut);
        }
        if !self.submission.data.job.key_eq(&self.job.key) {
            return Err(ErrorCode::ConstraintRaw);
        }
        if !self.submission.data.is_winner {
            return Err(ErrorCode::ConstraintRaw);
        }
        let vault_seeds = make_vault_seeds(&self.submission.data.job);
        if !check_created(&vault_seeds, self.job.data.vault_bump, &self.vault.key, program_id) {
            return Err(ErrorCode::ConstraintSeeds);
        }
        if !self.vault.is_writable {
            return Err(ErrorCode::ConstraintMut);
        }
        if !self.vault.data.mint.key_eq(&self.job.data.currency) {
            return Err(ErrorCode::ConstraintRaw);
        }
        if !self.winning_token_account.is_writable {
            return Err(ErrorCode::ConstraintMut);
        }
        if !self.winning_token_account.data.mint.key_eq(&self.vault.data.mint) {
            return Err(ErrorCode::ConstraintRaw);
        }
        if !self.winning_token_account.data.owner.key_eq(&self.signer.key) {
            return Err(ErrorCode::ConstraintRaw);
        }
        Ok(Bumps::new())
    }

    /// The transfer from the vault to the winner's token account, with the
    /// vault as authority.
    pub fn into_transfer_to_worker_context(&self) -> (c: CpiContext<Transfer>)
        ensures
            c.program == self.token_program,
            c.accounts.from == self.vault.key,
            c.accounts.to == self.winning_token_account.key,
            c.accounts.authority == self.vault.key,
            c.signer_seeds@.len() == 0,
    {
        let cpi_accounts = Transfer {
            from: self.vault.key,
            to: self.winning_token_account.key,
            authority: self.vault.key,
        };
        CpiContext::new(self.token_program, cpi_accounts)
    }
}

} // verus!
