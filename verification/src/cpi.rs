use vstd::prelude::*;

use crate::pubkey::Pubkey;

verus! {

/// The accounts of a token transfer.
#[derive(Clone, Copy, Debug)]
pub struct Transfer {
    pub from: Pubkey,
    pub to: Pubkey,
    pub authority: Pubkey,
}

/// The accounts of a change of a token account's or mint's authority.
#[derive(Clone, Copy, Debug)]
pub struct SetAuthority {
    pub current_authority: Pubkey,
    pub account_or_mint: Pubkey,
}

/// Which authority of a token account or mint is changed.
#[derive(Clone, Copy, Debug, PartialEq, Eq, Structural)]
pub enum AuthorityType {
    MintTokens,
    FreezeAccount,
    AccountOwner,
    CloseAccount,
}

/// A call into another program: the program, its accounts and the seeds of
/// the program-derived signers that sign it.
pub struct CpiContext<T> {
    pub program: Pubkey,
    pub accounts: T,
    pub signer_seeds: Vec<Vec<Vec<u8>>>,
}

impl<T> CpiContext<T> {
    /// A call with no derived signers.
    pub fn new(program: Pubkey, accounts: T) -> (c: CpiContext<T>)
        ensures
            c.program == program,
            c.accounts == accounts,
            c.signer_seeds@.len() == 0,
    {
        CpiContext { program, accounts, signer_seeds: Vec::new() }
    }

    /// The same call, signed by the derived signers of `signer_seeds`.
    pub fn with_signer(self, signer_seeds: Vec<Vec<Vec<u8>>>) -> (c: CpiContext<T>)
        ensures
            c.program == self.program,
            c.accounts == self.accounts,
            c.signer_seeds == signer_seeds,
    {
        CpiContext { program: self.program, accounts: self.accounts, signer_seeds }
    }
}

/// A call into the token program that an instruction asks to be made.
#[allow(inconsistent_fields)]
pub enum TokenCpi {
    /// Move `amount` tokens.
    Transfer { ctx: CpiContext<Transfer>, amount: u64 },
    /// Hand an authority to `new_authority`.
    SetAuthority { ctx: CpiContext<SetAuthority>, authority_type: AuthorityType, new_authority: Option<Pubkey> },
}

} // verus!
