//! The instructions of a position transaction, with every account they
//! name.

use crate::address::{zero_bytes, Address};
use crate::derive::{associated_token_address_spec, get_associated_token_address};
use crate::pool::RewardInfo;
use crate::position::{address_of, lemma_address_of};
use crate::program::token_program_bytes;
use vstd::prelude::*;

verus! {

/// The compute units that an open-position transaction asks for.
pub const OPEN_COMPUTE_UNIT_LIMIT: u32 = 1_400_000;

/// An account of an instruction, with what the instruction may do to it.
#[derive(Clone, Copy, Debug, PartialEq, Eq)]
pub struct AccountMeta {
    pub pubkey: Address,
    pub is_signer: bool,
    pub is_writable: bool,
}

/// The named accounts of an open-position instruction.
#[derive(Clone, Copy, Debug, PartialEq, Eq)]
pub struct OpenPositionAccounts {
    pub payer: Address,
    pub position_nft_owner: Address,
    pub position_nft_mint: Address,
    pub position_nft_account: Address,
    pub pool_state: Address,
    pub protocol_position: Address,
    pub tick_array_lower: Address,
    pub tick_array_upper: Address,
    pub personal_position: Address,
    pub token_account_0: Address,
    pub token_account_1: Address,
    pub token_vault_0: Address,
    pub token_vault_1: Address,
    pub rent: Address,
    pub system_program: Address,
    pub token_program: Address,
    pub associated_token_program: Address,
    pub token_program_2022: Address,
    pub vault_0_mint: Address,
    pub vault_1_mint: Address,
}

/// The arguments of an open-position instruction.
#[derive(Clone, Copy, Debug, PartialEq, Eq)]
pub struct OpenPositionArgs {
    pub liquidity: u128,
    pub amount_0_max: u64,
    pub amount_1_max: u64,
    pub tick_lower_index: i32,
    pub tick_upper_index: i32,
    pub tick_array_lower_start_index: i32,
    pub tick_array_upper_start_index: i32,
    pub with_metadata: bool,
    pub base_flag: Option<bool>,
}

/// The named accounts of a decrease-liquidity instruction.
#[derive(Clone, Copy, Debug, PartialEq, Eq)]
pub struct DecreaseLiquidityAccounts {
    pub nft_owner: Address,
    pub nft_account: Address,
    pub personal_position: Address,
    pub pool_state: Address,
    pub protocol_position: Address,
    pub token_vault_0: Address,
    pub token_vault_1: Address,
    pub tick_array_lower: Address,
    pub tick_array_upper: Address,
    pub recipient_token_account_0: Address,
    pub recipient_token_account_1: Address,
    pub token_program: Address,
    pub token_program_2022: Address,
    pub memo_program: Address,
    pub vault_0_mint: Address,
    pub vault_1_mint: Address,
}

/// The arguments of a decrease-liquidity instruction.
#[derive(Clone, Copy, Debug, PartialEq, Eq)]
pub struct DecreaseLiquidityArgs {
    pub liquidity: u128,
    pub amount_0_min: u64,
    pub amount_1_min: u64,
}

/// The named accounts of a close-position instruction.
#[derive(Clone, Copy, Debug, PartialEq, Eq)]
pub struct ClosePositionAccounts {
    pub nft_owner: Address,
    pub position_nft_mint: Address,
    pub position_nft_account: Address,
    pub personal_position: Address,
    pub system_program: Address,
    pub token_program: Address,
}

/// One instruction of a position transaction.
#[derive(Clone, Debug, PartialEq, Eq)]
#[allow(inconsistent_fields)]
pub enum PositionInstruction {
    /// Asks for a compute budget.
    SetComputeUnitLimit { units: u32 },
    /// Opens a position and deposits into it.
    OpenPosition {
        program_id: Address,
        accounts: OpenPositionAccounts,
        remaining_accounts: Vec<AccountMeta>,
        args: OpenPositionArgs,
    },
    /// Withdraws liquidity from a position.
    DecreaseLiquidity {
        program_id: Address,
        accounts: DecreaseLiquidityAccounts,
        remaining_accounts: Vec<AccountMeta>,
        args: DecreaseLiquidityArgs,
    },
    /// Closes an emptied position.
    ClosePosition { program_id: Address, accounts: ClosePositionAccounts },
}

impl PositionInstruction {
    /// Whether this is the compute-budget request for `units`.
    pub open spec fn is_compute_limit(self, units: u32) -> bool {
        self matches PositionInstruction::SetComputeUnitLimit { units: u } && u == units
    }

    /// Whether this is the open-position instruction with the given parts.
    pub open spec fn is_open(
        self,
        program_id: Address,
        accounts: OpenPositionAccounts,
        remaining: Seq<AccountMeta>,
        args: OpenPositionArgs,
    ) -> bool {
        self matches PositionInstruction::OpenPosition {
            program_id: p,
            accounts: a,
            remaining_accounts: r,
            args: g,
        } && p == program_id && a == accounts && r@ == remaining && g == args
    }

    /// Whether this is the decrease-liquidity instruction with the given
    /// parts.
    pub open spec fn is_decrease(
        self,
        program_id: Address,
        accounts: DecreaseLiquidityAccounts,
        remaining: Seq<AccountMeta>,
        args: DecreaseLiquidityArgs,
    ) -> bool {
        self matches PositionInstruction::DecreaseLiquidity {
            program_id: p,
            accounts: a,
            remaining_accounts: r,
            args: g,
        } && p == program_id && a == accounts && r@ == remaining && g == args
    }

    /// Whether this is the close-position instruction with the given parts.
    pub open spec fn is_close(self, program_id: Address, accounts: ClosePositionAccounts) -> bool {
        self matches PositionInstruction::ClosePosition { program_id: p, accounts: a } && p
            == program_id && a == accounts
    }
}

/// The mints of the positions that a list of instructions opens, in the
/// order of the instructions.
pub open spec fn opened_mints(instructions: Seq<PositionInstruction>) -> Seq<Address>
    decreases instructions.len(),
{
    if instructions.len() == 0 {
        Seq::empty()
    } else {
        let before = opened_mints(instructions.drop_last());
        match instructions.last() {
            PositionInstruction::OpenPosition { accounts, .. } => before.push(
                accounts.position_nft_mint,
            ),
            _ => before,
        }
    }
}

/// Who signs the transaction of a list of instructions: the payer, then
/// the mint of each position that the instructions open.
pub fn required_signers(instructions: &Vec<PositionInstruction>, payer: &Address) -> (r: Vec<
    Address,
>)
    ensures
        r@ == seq![*payer] + opened_mints(instructions@),
{
    let mut out: Vec<Address> = Vec::new();
    out.push(*payer);
    let mut i: usize = 0;
    assert(instructions@.take(0) =~= Seq::empty());
    while i < instructions.len()
        invariant
            0 <= i <= instructions.len(),
            out@ == seq![*payer] + opened_mints(instructions@.take(i as int)),
        decreases instructions.len() - i,
    {
        let ghost next = instructions@.take(i + 1);
        assert(next.drop_last() =~= instructions@.take(i as int));
        assert(next.last() == instructions@[i as int]);
        match &instructions[i] {
            PositionInstruction::OpenPosition { accounts, .. } => {
                out.push(accounts.position_nft_mint);
                assert(out@ =~= seq![*payer] + opened_mints(next));
            },
            _ => {},
        }
        i += 1;
    }
    assert(instructions@.take(i as int) =~= instructions@);
    out
}

/// An account that an instruction may write and that does not sign.
pub open spec fn writable(pubkey: Address) -> AccountMeta {
    AccountMeta { pubkey, is_signer: false, is_writable: true }
}

/// An account that an instruction may write and that does not sign.
pub fn writable_account(pubkey: Address) -> (r: AccountMeta)
    ensures
        r == writable(pubkey),
{
    AccountMeta { pubkey, is_signer: false, is_writable: true }
}

/// The reward accounts of a withdrawal: for each reward slot that is not
/// empty, in slot order, its vault, the owner's token account for its mint
/// and its mint. `None` where an owner's token account cannot be derived.
pub open spec fn reward_accounts_spec(rewards: Seq<RewardInfo>, owner: Address) -> Option<
    Seq<Address>,
>
    decreases rewards.len(),
{
    if rewards.len() == 0 {
        Some(Seq::empty())
    } else {
        match reward_accounts_spec(rewards.drop_last(), owner) {
            None => None,
            Some(before) => {
                let slot = rewards.last();
                if slot.token_mint@ == zero_bytes() {
                    Some(before)
                } else {
                    match associated_token_address_spec(
                        owner@,
                        slot.token_mint@,
                        token_program_bytes(),
                    ) {
                        None => None,
                        Some(account) => Some(
                            before + seq![slot.token_vault, address_of(account), slot.token_mint],
                        ),
                    }
                }
            },
        }
    }
}

/// The trailing accounts of a withdrawal: the pool's tick-array bitmap
/// extension, then the reward accounts, all writable.
pub open spec fn withdrawal_remaining_spec(
    bitmap_extension: Address,
    rewards: Seq<RewardInfo>,
    owner: Address,
) -> Option<Seq<AccountMeta>> {
    match reward_accounts_spec(rewards, owner) {
        None => None,
        Some(accounts) => Some(
            seq![writable(bitmap_extension)] + accounts.map_values(|a: Address| writable(a)),
        ),
    }
}

/// The reward accounts of a withdrawal.
pub fn reward_accounts(rewards: &[RewardInfo; 3], owner: &Address) -> (r: Option<Vec<Address>>)
    ensures
        match r {
            Some(accounts) => reward_accounts_spec(rewards@, *owner) == Some(accounts@),
            None => reward_accounts_spec(rewards@, *owner) is None,
        },
{
    let mut out: Vec<Address> = Vec::new();
    let mut i: usize = 0;
    assert(rewards@.take(0) =~= Seq::empty());
    while i < 3
        invariant
            0 <= i <= 3,
            reward_accounts_spec(rewards@.take(i as int), *owner) == Some(out@),
        decreases 3 - i,
    {
        let slot = rewards[i];
        let ghost next = rewards@.take(i + 1);
        assert(next.drop_last() =~= rewards@.take(i as int));
        assert(next.last() == slot);
        if !slot.token_mint.is_zero() {
            match get_associated_token_address(owner, &slot.token_mint) {
                None => {
                    proof {
                        lemma_reward_accounts_none(rewards@, i + 1, *owner);
                    }
                    return None;
                },
                Some(account) => {
                    proof {
                        lemma_address_of(account);
                    }
                    let ghost before = out@;
                    out.push(slot.token_vault);
                    out.push(account);
                    out.push(slot.token_mint);
                    assert(out@ =~= before + seq![slot.token_vault, account, slot.token_mint]);
                },
            }
        }
        i += 1;
    }
    assert(rewards@.take(3) =~= rewards@);
    Some(out)
}

/// Where the reward accounts of a prefix of the slots cannot be had, those
/// of all slots cannot.
proof fn lemma_reward_accounts_none(rewards: Seq<RewardInfo>, k: int, owner: Address)
    requires
        0 <= k <= rewards.len(),
        reward_accounts_spec(rewards.take(k), owner) is None,
    ensures
        reward_accounts_spec(rewards, owner) is None,
    decreases rewards.len(),
{
    if k == rewards.len() {
        assert(rewards.take(k) =~= rewards);
    } else {
        assert(rewards.drop_last().take(k) =~= rewards.take(k));
        lemma_reward_accounts_none(rewards.drop_last(), k, owner);
    }
}

/// The trailing accounts of a withdrawal.
pub fn withdrawal_remaining_accounts(
    bitmap_extension: &Address,
    rewards: &[RewardInfo; 3],
    owner: &Address,
) -> (r: Option<Vec<AccountMeta>>)
    ensures
        match r {
            Some(metas) => withdrawal_remaining_spec(*bitmap_extension, rewards@, *owner) == Some(
                metas@,
            ),
            None => withdrawal_remaining_spec(*bitmap_extension, rewards@, *owner) is None,
        },
{
    let accounts = match reward_accounts(rewards, owner) {
        Some(a) => a,
        None => {
            return None;
        },
    };
    let mut out: Vec<AccountMeta> = Vec::new();
    out.push(writable_account(*bitmap_extension));
    let mut i: usize = 0;
    while i < accounts.len()
        invariant
            0 <= i <= accounts.len(),
            out@ == seq![writable(*bitmap_extension)] + accounts@.take(i as int).map_values(
                |a: Address| writable(a),
            ),
        decreases accounts.len() - i,
    {
        let ghost before = out@;
        out.push(writable_account(accounts[i]));
        assert(accounts@.take(i + 1).map_values(|a: Address| writable(a)) =~= accounts@.take(
            i as int,
        ).map_values(|a: Address| writable(a)).push(writable(accounts@[i as int])));
        assert(out@ =~= seq![writable(*bitmap_extension)] + accounts@.take(i + 1).map_values(
            |a: Address| writable(a),
        ));
        i += 1;
    }
    assert(accounts@.take(i as int) =~= accounts@);
    Some(out)
}

} // verus!
