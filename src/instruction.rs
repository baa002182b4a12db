use vstd::prelude::*;

use crate::address::Address;

verus! {

/// One account an instruction touches, with how it may be used.
#[derive(Clone, Copy, Debug)]
pub struct AccountMeta {
    pub pubkey: Address,
    pub is_signer: bool,
    pub is_writable: bool,
}

impl AccountMeta {
    /// An account the instruction may write.
    pub fn new(pubkey: Address, is_signer: bool) -> (r: AccountMeta)
        ensures
            r == (AccountMeta { pubkey, is_signer, is_writable: true }),
    {
        AccountMeta { pubkey, is_signer, is_writable: true }
    }

    /// An account the instruction only reads.
    pub fn new_readonly(pubkey: Address, is_signer: bool) -> (r: AccountMeta)
        ensures
            r == (AccountMeta { pubkey, is_signer, is_writable: false }),
    {
        AccountMeta { pubkey, is_signer, is_writable: false }
    }
}

/// An instruction for another program: its id, its accounts in order, and
/// the payload it receives.
#[derive(Clone, Debug)]
pub struct Instruction {
    pub program_id: Address,
    pub accounts: Vec<AccountMeta>,
    pub data: Vec<u8>,
}

/// The instruction that relays a swap route to the aggregator program: the
/// accounts are passed on in order with their signer and writable flags,
/// and the route bytes are the payload.
pub fn jupiter_route_instruction(
    jupiter_program: Address,
    remaining_accounts: Vec<AccountMeta>,
    route_data: Vec<u8>,
) -> (r: Instruction)
    ensures
        r.program_id == jupiter_program,
        r.accounts@ == remaining_accounts@,
        r.data@ == route_data@,
{
    Instruction { program_id: jupiter_program, accounts: remaining_accounts, data: route_data }
}

/// The instruction that relays a swap to the Raydium program: the accounts
/// are passed on in order with their flags; the payload is empty, as the
/// swap's own encoding is left to the pool program's caller.
pub fn swap_on_raydium(raydium_program: Address, remaining_accounts: Vec<AccountMeta>) -> (r:
    Instruction)
    ensures
        r.program_id == raydium_program,
        r.accounts@ == remaining_accounts@,
        r.data@ == Seq::<u8>::empty(),
{
    Instruction { program_id: raydium_program, accounts: remaining_accounts, data: Vec::new() }
}

} // verus!
