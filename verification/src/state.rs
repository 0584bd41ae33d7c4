use vstd::prelude::*;

use vstd::string::StringSliceAdditionalSpecFns;

use crate::pubkey::Pubkey;

verus! {

/// Bytes of the type tag stored ahead of an account's fields.
pub const DISCRIMINATOR_LEN: usize = 8;

/// Bytes a string takes when stored: a four-byte length and its UTF-8 bytes.
pub open spec fn stored_string_len(s: &String) -> int {
    4 + vstd::utf8::encode_utf8(s@).len() as int
}

/// Where a job stands in its life.
#[allow(non_camel_case_types)]
#[derive(Clone, Copy, Debug, PartialEq, Eq, Structural)]
pub enum JobState {
    PENDING,
    PUBLISHED,
    ACTIVE,
    VALIDATED,
    COMPLETED,
    CANCELED,
}

impl Default for JobState {
    /// A job starts out pending.
    fn default() -> (s: JobState)
        ensures
            s == JobState::PENDING,
    {
        JobState::PENDING
    }
}

impl JobState {
    /// A job may be canceled while it is published or still pending.
    pub open spec fn spec_is_cancelable(&self) -> bool {
        *self == JobState::PUBLISHED || *self == JobState::PENDING
    }

    /// A job takes workers, and submissions are judged, unless it was
    /// canceled, completed or already validated.
    pub open spec fn spec_is_open(&self) -> bool {
        !(*self == JobState::CANCELED || *self == JobState::COMPLETED || *self == JobState::VALIDATED)
    }

    /// Whether a job in this state may be canceled.
    #[verifier::when_used_as_spec(spec_is_cancelable)]
    pub fn is_cancelable(&self) -> (r: bool)
        ensures
            r == self.spec_is_cancelable(),
    {
        *self == JobState::PUBLISHED || *self == JobState::PENDING
    }

    /// Whether a job in this state may be started or have a submission validated.
    #[verifier::when_used_as_spec(spec_is_open)]
    pub fn is_open(&self) -> (r: bool)
        ensures
            r == self.spec_is_open(),
    {
        !(*self == JobState::CANCELED || *self == JobState::COMPLETED || *self == JobState::VALIDATED)
    }
}

/// A client: the owner of a series of jobs.
pub struct Client {
    pub bump: u8,
    pub owner: Pubkey,
    pub job_count: u64,
}

impl Client {
    /// Bytes allocated for a client account.
    pub const SPACE: usize = 32 + 1 + 8 + 8;

    /// All fields are zero.
    pub open spec fn spec_is_zeroed(&self) -> bool {
        &&& self.bump == 0
        &&& self.owner@ == Pubkey::spec_zero()
        &&& self.job_count == 0
    }

    /// A freshly allocated client account: all fields zero.
    pub fn zeroed() -> (c: Client)
        ensures
            c.spec_is_zeroed(),
    {
        Client { bump: 0, owner: Pubkey::zero(), job_count: 0 }
    }
}

/// A job: a paid task that workers compete on.
pub struct Job {
    pub bump: u8,
    pub index: u64,
    pub client: Pubkey,
    pub state: JobState,
    pub job_description: String,
    pub winner: Pubkey,
    pub validator: Pubkey,
    pub submission_count: u64,
    pub winning_submission: Pubkey,
    pub price: u64,
    pub currency: Pubkey,
    pub is_native: bool,
    pub publish_date: i64,
    pub deadline: i64,
    pub vault_token_account: Pubkey,
    pub vault_bump: u8,
}

impl Client {
    /// Bytes the client takes when stored: the tag and its fixed-size fields.
    pub open spec fn stored_len(&self) -> int {
        DISCRIMINATOR_LEN + 1 + 32 + 8
    }

    /// Whether the stored client fits in a client account.
    pub fn fits_space(&self) -> (r: bool)
        ensures
            r == (self.stored_len() <= Client::SPACE),
    {
        DISCRIMINATOR_LEN + 1 + 32 + 8 <= Client::SPACE
    }
}

impl Job {
    /// Bytes the job takes when stored: the tag, the fixed-size fields and
    /// the description.
    pub open spec fn stored_len(&self) -> int {
        DISCRIMINATOR_LEN + 1 + 8 + 32 + 1 + 32 + 32 + 8 + 32 + 8 + 32 + 1 + 8 + 8 + 32 + 1
            + stored_string_len(&self.job_description)
    }

    /// Whether the stored job fits in a job account.
    pub fn fits_space(&self) -> (r: bool)
        ensures
            r == (self.stored_len() <= Job::SPACE),
    {
        let fixed: usize = DISCRIMINATOR_LEN + 1 + 8 + 32 + 1 + 32 + 32 + 8 + 32 + 8 + 32 + 1 + 8 + 8 + 32 + 1 + 4;
        let desc = self.job_description.as_str();
        let n = desc.as_bytes().len();
        assert(desc.spec_bytes() == vstd::utf8::encode_utf8(self.job_description@));
        n <= Job::SPACE - fixed
    }
}

impl Job {
    /// Bytes allocated for a job account.
    pub const SPACE: usize = 8 + (6 * 32) + (8 * 5) + 14 + 14 + 54 + 1 + 1 + 1 + 10;

    /// All fields are zero, the state is pending and the description empty.
    pub open spec fn spec_is_zeroed(&self) -> bool {
        &&& self.bump == 0
        &&& self.index == 0
        &&& self.client@ == Pubkey::spec_zero()
        &&& self.state == JobState::PENDING
        &&& self.job_description@ == Seq::<char>::empty()
        &&& self.winner@ == Pubkey::spec_zero()
        &&& self.validator@ == Pubkey::spec_zero()
        &&& self.submission_count == 0
        &&& self.winning_submission@ == Pubkey::spec_zero()
        &&& self.price == 0
        &&& self.currency@ == Pubkey::spec_zero()
        &&& !self.is_native
        &&& self.publish_date == 0
        &&& self.deadline == 0
        &&& self.vault_token_account@ == Pubkey::spec_zero()
        &&& self.vault_bump == 0
    }

    /// A freshly allocated job account: all fields zero, the state pending
    /// and the description empty.
    pub fn zeroed() -> (j: Job)
        ensures
            j.spec_is_zeroed(),
    {
        Job {
            bump: 0,
            index: 0,
            client: Pubkey::zero(),
            state: JobState::PENDING,
            job_description: String::new(),
            winner: Pubkey::zero(),
            validator: Pubkey::zero(),
            submission_count: 0,
            winning_submission: Pubkey::zero(),
            price: 0,
            currency: Pubkey::zero(),
            is_native: false,
            publish_date: 0,
            deadline: 0,
            vault_token_account: Pubkey::zero(),
            vault_bump: 0,
        }
    }
}

/// A worker's submission to a job.
pub struct Submission {
    pub bump: u8,
    pub job: Pubkey,
    pub worker: Pubkey,
    pub submission_started: i64,
    pub submission_hash: String,
    pub submission_date: i64,
    pub is_validated: bool,
    pub is_winner: bool,
}

impl Submission {
    /// Bytes allocated for a submission account.
    pub const SPACE: usize = 1 + 32 + 32 + (4 + 50) + 8;

    /// All fields are zero or false and the hash empty.
    pub open spec fn spec_is_zeroed(&self) -> bool {
        &&& self.bump == 0
        &&& self.job@ == Pubkey::spec_zero()
        &&& self.worker@ == Pubkey::spec_zero()
        &&& self.submission_started == 0
        &&& self.submission_hash@ == Seq::<char>::empty()
        &&& self.submission_date == 0
        &&& !self.is_validated
        &&& !self.is_winner
    }

    /// A freshly allocated submission account: all fields zero or false and
    /// the hash empty.
    pub fn zeroed() -> (s: Submission)
        ensures
            s.spec_is_zeroed(),
    {
        Submission {
            bump: 0,
            job: Pubkey::zero(),
            worker: Pubkey::zero(),
            submission_started: 0,
            submission_hash: String::new(),
            submission_date: 0,
            is_validated: false,
            is_winner: false,
        }
    }
}

impl Submission {
    /// Bytes the submission takes when stored: the tag, the fixed-size
    /// fields and the hash.
    pub open spec fn stored_len(&self) -> int {
        DISCRIMINATOR_LEN + 1 + 32 + 32 + 8 + 8 + 1 + 1 + stored_string_len(&self.submission_hash)
    }

    /// Whether the stored submission fits in a submission account.
    pub fn fits_space(&self) -> (r: bool)
        ensures
            r == (self.stored_len() <= Submission::SPACE),
    {
        let fixed: usize = DISCRIMINATOR_LEN + 1 + 32 + 32 + 8 + 8 + 1 + 1 + 4;
        let hash = self.submission_hash.as_str();
        let n = hash.as_bytes().len();
        assert(hash.spec_bytes() == vstd::utf8::encode_utf8(self.submission_hash@));
        n <= Submission::SPACE - fixed
    }
}

/// What the program reads of a token account: the token it holds and the
/// account's owner.
#[derive(Clone, Copy, Debug)]
pub struct TokenAccount {
    pub mint: Pubkey,
    pub owner: Pubkey,
}

/// An account handed to an instruction: its address, whether the
/// instruction may write it, whether it is already allocated (holds data or
/// belongs to a program other than the system program, so that it cannot be
/// created again), and its data.
pub struct Account<T> {
    pub key: Pubkey,
    pub is_writable: bool,
    pub is_allocated: bool,
    pub data: T,
}

/// The account that pays for and signs an instruction: its address, whether
/// it signed, and whether the instruction may write it.
#[derive(Clone, Copy, Debug)]
pub struct Signer {
    pub key: Pubkey,
    pub is_signer: bool,
    pub is_writable: bool,
}

} // verus!
