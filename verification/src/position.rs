//! The positions of an owner: the token accounts that stand for them and
//! the position records they lead to.

use crate::address::{lemma_view_injective, opt_view, Address};
use crate::derive::{personal_position_address, personal_position_address_spec};
use crate::error::PlanError;
use crate::program::{
    spl_token_2022_id, spl_token_id, token_2022_program_bytes, token_program_bytes,
};
use crate::text::{parse_u64, parse_u64_spec};
use solana_sdk::pubkey::{ParsePubkeyError, Pubkey};
use std::str::FromStr;
use vstd::prelude::*;

verus! {

/// What a node reports of one token account, as text.
#[derive(Clone, Debug, PartialEq, Eq)]
pub struct TokenAccountRecord {
    /// The account's own address.
    pub pubkey: String,
    /// The name of the program that the node decoded the account for.
    pub program: String,
    /// The mint of the token held.
    pub mint: String,
    /// The account's owner.
    pub owner: String,
    /// The balance, in the token's smallest unit.
    pub amount: String,
    /// The token's decimals.
    pub decimals: u8,
    /// Who may close the account, if anyone but the owner.
    pub close_authority: Option<String>,
}

/// A token account that stands for a position, with the position it leads
/// to.
#[derive(Clone, Copy, Debug, PartialEq, Eq)]
pub struct PositionNftTokenInfo {
    /// The token account.
    pub key: Address,
    /// The token program that owns the account.
    pub program: Address,
    /// The personal position record derived from the mint.
    pub position: Address,
    /// The mint of the position's token.
    pub mint: Address,
    /// The balance: one.
    pub amount: u64,
    /// The token's decimals: zero.
    pub decimals: u8,
}

/// The bytes of the address that a text writes in base 58, if it writes
/// one.
pub uninterp spec fn parsed_address(text: Seq<char>) -> Option<Seq<u8>>;

/// The address with the given bytes.
pub open spec fn address_of(bytes: Seq<u8>) -> Address {
    choose|a: Address| a@ == bytes
}

/// An address is the address of its bytes.
pub proof fn lemma_address_of(a: Address)
    ensures
        address_of(a@) == a,
{
    let b = address_of(a@);
    assert(b@ == a@);
    lemma_view_injective(b, a);
}

/// Whether a program name is one of the two token programs' names.
pub open spec fn is_token_program_name(name: Seq<char>) -> bool {
    name == "spl-token"@ || name == "spl-token-2022"@
}

/// Whether a token account stands for a position: a token program decoded
/// it, its token has no decimals and its balance is one.
pub open spec fn qualifies(record: TokenAccountRecord) -> bool {
    &&& is_token_program_name(record.program@)
    &&& record.decimals == 0
    &&& parse_u64_spec(record.amount@) == Some(1u64)
}

/// What one token account contributes: nothing, a position token, or the
/// error that ends the scan.
pub open spec fn record_outcome(
    record: TokenAccountRecord,
    token_program: Address,
    amm_program: Address,
) -> Result<Option<PositionNftTokenInfo>, PlanError> {
    if !is_token_program_name(record.program@) {
        Ok(None)
    } else if parsed_address(record.mint@) is None {
        Err(PlanError::InvalidMint)
    } else if parsed_address(record.pubkey@) is None {
        Err(PlanError::InvalidTokenAccount)
    } else if parsed_address(record.owner@) is None {
        Err(PlanError::InvalidOwner)
    } else if parse_u64_spec(record.amount@) is None {
        Err(PlanError::InvalidAmount)
    } else if record.close_authority is Some && parsed_address(record.close_authority->0@)
        is None {
        Err(PlanError::InvalidCloseAuthority)
    } else if !qualifies(record) {
        Ok(None)
    } else {
        let mint = parsed_address(record.mint@)->0;
        match personal_position_address_spec(amm_program@, mint) {
            None => Err(PlanError::AddressNotDerivable),
            Some(position) => Ok(
                Some(
                    PositionNftTokenInfo {
                        key: address_of(parsed_address(record.pubkey@)->0),
                        program: token_program,
                        position: address_of(position),
                        mint: address_of(mint),
                        amount: 1,
                        decimals: 0,
                    },
                ),
            ),
        }
    }
}

/// The position tokens among an owner's token accounts under one token
/// program, in the order of the accounts, or the first error met.
pub open spec fn resolve_spec(
    records: Seq<TokenAccountRecord>,
    token_program: Address,
    amm_program: Address,
) -> Result<Seq<PositionNftTokenInfo>, PlanError>
    decreases records.len(),
{
    if records.len() == 0 {
        Ok(Seq::empty())
    } else {
        match resolve_spec(records.drop_last(), token_program, amm_program) {
            Err(e) => Err(e),
            Ok(found) => match record_outcome(records.last(), token_program, amm_program) {
                Err(e) => Err(e),
                Ok(Some(info)) => Ok(found.push(info)),
                Ok(None) => Ok(found),
            },
        }
    }
}

/// How many of an owner's token accounts stand for a position.
pub open spec fn qualifying_count(records: Seq<TokenAccountRecord>) -> nat
    decreases records.len(),
{
    if records.len() == 0 {
        0
    } else {
        qualifying_count(records.drop_last()) + if qualifies(records.last()) {
            1nat
        } else {
            0nat
        }
    }
}

/// The position tokens of an owner under both token programs: those of the
/// token program first, then those of the 2022 token program.
pub open spec fn resolve_all_spec(
    token_records: Seq<TokenAccountRecord>,
    token_2022_records: Seq<TokenAccountRecord>,
    amm_program: Address,
) -> Result<Seq<PositionNftTokenInfo>, PlanError> {
    match resolve_spec(token_records, address_of(token_program_bytes()), amm_program) {
        Err(e) => Err(e),
        Ok(first) => match resolve_spec(
            token_2022_records,
            address_of(token_2022_program_bytes()),
            amm_program,
        ) {
            Err(e) => Err(e),
            Ok(second) => Ok(first + second),
        },
    }
}

/// Trusted: the error of reading an address, `ParsePubkeyError`, of which
/// nothing is read.
#[verifier::external_type_specification]
#[verifier::external_body]
pub struct ExParseAddressError(solana_sdk::pubkey::ParsePubkeyError);

/// The view of an address read, whatever the error where none was.
pub open spec fn read_view(r: Result<Address, ParsePubkeyError>) -> Option<Seq<u8>> {
    match r {
        Ok(a) => Some(a@),
        Err(_) => None,
    }
}

/// Trusted: `Pubkey::from_str` is a function of the text alone. The
/// contract names its result `parsed_address` and states nothing more of
/// it.
#[verifier::external_body]
fn pubkey_from_str(text: &str) -> (r: Result<Address, ParsePubkeyError>)
    ensures
        read_view(r) == parsed_address(text@),
{
    Pubkey::from_str(text).map(|key| Address { bytes: key.to_bytes() })
}

/// Reads an address written in base 58.
pub fn parse_address(text: &str) -> (r: Option<Address>)
    ensures
        opt_view(r) == parsed_address(text@),
{
    match pubkey_from_str(text) {
        Ok(a) => Some(a),
        Err(_) => None,
    }
}

/// Whether a program name is one of the two token programs' names.
fn token_program_name(name: &String) -> (r: bool)
    ensures
        r == is_token_program_name(name@),
{
    let first = "spl-token".to_owned();
    let second = "spl-token-2022".to_owned();
    *name == first || *name == second
}

/// What one token account contributes to the scan.
fn resolve_record(record: &TokenAccountRecord, token_program: &Address, amm_program: &Address)
    -> (r: Result<Option<PositionNftTokenInfo>, PlanError>)
    ensures
        r == record_outcome(*record, *token_program, *amm_program),
{
    if !token_program_name(&record.program) {
        return Ok(None);
    }
    let mint = match parse_address(record.mint.as_str()) {
        Some(a) => a,
        None => {
            return Err(PlanError::InvalidMint);
        },
    };
    let key = match parse_address(record.pubkey.as_str()) {
        Some(a) => a,
        None => {
            return Err(PlanError::InvalidTokenAccount);
        },
    };
    if parse_address(record.owner.as_str()).is_none() {
        return Err(PlanError::InvalidOwner);
    }
    let amount = match parse_u64(record.amount.as_str()) {
        Some(v) => v,
        None => {
            return Err(PlanError::InvalidAmount);
        },
    };
    match &record.close_authority {
        Some(text) => {
            if parse_address(text.as_str()).is_none() {
                return Err(PlanError::InvalidCloseAuthority);
            }
        },
        None => {},
    }
    if !(record.decimals == 0 && amount == 1) {
        return Ok(None);
    }
    let position = match personal_position_address(amm_program, &mint) {
        Some(a) => a,
        None => {
            return Err(PlanError::AddressNotDerivable);
        },
    };
    proof {
        lemma_address_of(mint);
        lemma_address_of(key);
        lemma_address_of(position);
    }
    Ok(
        Some(
            PositionNftTokenInfo {
                key,
                program: *token_program,
                position,
                mint,
                amount,
                decimals: record.decimals,
            },
        ),
    )
}

/// The position tokens among an owner's token accounts under one token
/// program, each joined with the position record derived from its mint.
pub fn get_nft_account_and_position_by_owner(
    records: &Vec<TokenAccountRecord>,
    token_program: &Address,
    amm_program: &Address,
) -> (r: Result<Vec<PositionNftTokenInfo>, PlanError>)
    ensures
        match r {
            Ok(found) => resolve_spec(records@, *token_program, *amm_program) == Ok::<
                Seq<PositionNftTokenInfo>,
                PlanError,
            >(found@),
            Err(e) => resolve_spec(records@, *token_program, *amm_program) == Err::<
                Seq<PositionNftTokenInfo>,
                PlanError,
            >(e),
        },
{
    let mut found: Vec<PositionNftTokenInfo> = Vec::new();
    let mut i: usize = 0;
    assert(records@.take(0) =~= Seq::empty());
    while i < records.len()
        invariant
            0 <= i <= records.len(),
            resolve_spec(records@.take(i as int), *token_program, *amm_program) == Ok::<
                Seq<PositionNftTokenInfo>,
                PlanError,
            >(found@),
        decreases records.len() - i,
    {
        let ghost next = records@.take(i + 1);
        assert(next.drop_last() =~= records@.take(i as int));
        assert(next.last() == records@[i as int]);
        match resolve_record(&records[i], token_program, amm_program) {
            Err(e) => {
                proof {
                    lemma_resolve_error_stays(records@, i + 1, *token_program, *amm_program);
                }
                return Err(e);
            },
            Ok(Some(info)) => {
                found.push(info);
            },
            Ok(None) => {},
        }
        i += 1;
    }
    assert(records@.take(i as int) =~= records@);
    Ok(found)
}

/// An error met on a prefix of the accounts is the error of the whole scan.
proof fn lemma_resolve_error_stays(
    records: Seq<TokenAccountRecord>,
    k: int,
    token_program: Address,
    amm_program: Address,
)
    requires
        0 <= k <= records.len(),
        resolve_spec(records.take(k), token_program, amm_program) is Err,
    ensures
        resolve_spec(records, token_program, amm_program) == resolve_spec(
            records.take(k),
            token_program,
            amm_program,
        ),
    decreases records.len(),
{
    if k == records.len() {
        assert(records.take(k) =~= records);
    } else {
        assert(records.drop_last().take(k) =~= records.take(k));
        lemma_resolve_error_stays(records.drop_last(), k, token_program, amm_program);
    }
}

/// The position tokens of an owner under both token programs, those of the
/// token program first.
pub fn get_all_nft_and_position_by_owner(
    token_records: &Vec<TokenAccountRecord>,
    token_2022_records: &Vec<TokenAccountRecord>,
    amm_program: &Address,
) -> (r: Result<Vec<PositionNftTokenInfo>, PlanError>)
    ensures
        match r {
            Ok(found) => resolve_all_spec(token_records@, token_2022_records@, *amm_program)
                == Ok::<Seq<PositionNftTokenInfo>, PlanError>(found@),
            Err(e) => resolve_all_spec(token_records@, token_2022_records@, *amm_program) == Err::<
                Seq<PositionNftTokenInfo>,
                PlanError,
            >(e),
        },
{
    let first_program = spl_token_id();
    let second_program = spl_token_2022_id();
    proof {
        lemma_address_of(first_program);
        lemma_address_of(second_program);
    }
    let mut first = get_nft_account_and_position_by_owner(
        token_records,
        &first_program,
        amm_program,
    )?;
    let mut second = get_nft_account_and_position_by_owner(
        token_2022_records,
        &second_program,
        amm_program,
    )?;
    first.append(&mut second);
    Ok(first)
}

/// A scan that ends without error yields one position token for each
/// qualifying token account: none where none qualifies, exactly one where
/// exactly one does.
pub proof fn lemma_resolved_count(
    records: Seq<TokenAccountRecord>,
    token_program: Address,
    amm_program: Address,
)
    requires
        resolve_spec(records, token_program, amm_program) is Ok,
    ensures
        resolve_spec(records, token_program, amm_program)->Ok_0.len() == qualifying_count(records),
    decreases records.len(),
{
    if records.len() > 0 {
        lemma_resolved_count(records.drop_last(), token_program, amm_program);
    }
}

} // verus!
