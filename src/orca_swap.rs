use vstd::prelude::*;

use crate::address::{decoded_address, parse_address, Address};
use crate::errors::OrcaSwapError;
use crate::instruction::{AccountMeta, Instruction};

verus! {

/// Program id of the Orca Whirlpool program, in base58.
pub const ORCA_WHIRLPOOL_PROGRAM_ID: &'static str = "whirLbMiicVdio4qvUfM5KAg6Ct8VwpYzGff3uctyCc";

/// The two mints of a whirlpool swap and its amounts.
#[derive(Clone, Copy, Debug)]
pub struct OrcaSwapParams {
    pub token_a_mint: Address,
    pub token_b_mint: Address,
    pub amount_in: u64,
    pub minimum_amount_out: u64,
}

/// Swaps through an Orca whirlpool.
pub struct OrcaSwap;

/// The accounts a whirlpool swap passes, in the pool program's order: the
/// pool, its two token vaults and the user's token account, all writable,
/// then the token program, read-only. None of them signs.
pub open spec fn whirlpool_accounts(
    user_token_account: Address,
    whirlpool: Address,
    token_vault_a: Address,
    token_vault_b: Address,
    token_program: Address,
) -> Seq<AccountMeta> {
    seq![
        AccountMeta { pubkey: whirlpool, is_signer: false, is_writable: true },
        AccountMeta { pubkey: token_vault_a, is_signer: false, is_writable: true },
        AccountMeta { pubkey: token_vault_b, is_signer: false, is_writable: true },
        AccountMeta { pubkey: user_token_account, is_signer: false, is_writable: true },
        AccountMeta { pubkey: token_program, is_signer: false, is_writable: false },
    ]
}

impl OrcaSwap {
    /// The instruction for a whirlpool swap, addressed to the Whirlpool
    /// program. Its payload is empty: the pool's swap encoding is not
    /// produced here, so `program_id` and `params` do not enter it.
    pub fn swap(
        program_id: &Address,
        params: &OrcaSwapParams,
        user_token_account: &Address,
        whirlpool: &Address,
        token_vault_a: &Address,
        token_vault_b: &Address,
        token_program: &Address,
    ) -> (r: Result<Instruction, OrcaSwapError>)
        ensures
            match r {
                Ok(ix) => {
                    &&& decoded_address(ORCA_WHIRLPOOL_PROGRAM_ID@) == Some(ix.program_id@)
                    &&& ix.accounts@ == whirlpool_accounts(
                        *user_token_account,
                        *whirlpool,
                        *token_vault_a,
                        *token_vault_b,
                        *token_program,
                    )
                    &&& ix.data@ == Seq::<u8>::empty()
                },
                Err(e) => e == OrcaSwapError::InvalidProgramId && decoded_address(
                    ORCA_WHIRLPOOL_PROGRAM_ID@,
                ) is None,
            },
    {
        let whirlpool_program_id = match parse_address(ORCA_WHIRLPOOL_PROGRAM_ID) {
            Ok(id) => id,
            Err(_) => {
                return Err(OrcaSwapError::InvalidProgramId);
            },
        };
        let accounts = vec![
            AccountMeta::new(*whirlpool, false),
            AccountMeta::new(*token_vault_a, false),
            AccountMeta::new(*token_vault_b, false),
            AccountMeta::new(*user_token_account, false),
            AccountMeta::new_readonly(*token_program, false),
        ];
        let data: Vec<u8> = Vec::new();
        let ix = Instruction { program_id: whirlpool_program_id, accounts, data };
        proof {
            assert(ix.accounts@ =~= whirlpool_accounts(
                *user_token_account,
                *whirlpool,
                *token_vault_a,
                *token_vault_b,
                *token_program,
            ));
        }
        Ok(ix)
    }
}

} // verus!
